use javascript_eval_native::function_parameter::FunctionParameter;
use javascript_eval_native::Primitive;

fn blank_primitive() -> Primitive {
    Primitive {
        number_bits: 0,
        number_value_set: false,
        bigint_value: 0,
        bigint_value_set: false,
        bool_value: false,
        bool_value_set: false,
        string_value: None,
        symbol_value: None,
        object_value: None,
    }
}

#[test]
fn it_can_create_from_string_value() {
    let primitive = Primitive { string_value: Some(String::from("Hello World")), ..blank_primitive() };

    let func_param = FunctionParameter::from(&primitive);

    match func_param {
        FunctionParameter::StringValue(s) => assert_eq!("Hello World", s),
        _ => assert!(false, "Expected value wasn't returned."),
    }
}

#[test]
fn it_can_create_from_symbol_value() {
    let primitive = Primitive { symbol_value: Some(String::from("symbol")), ..blank_primitive() };

    let func_param = FunctionParameter::from(&primitive);

    match func_param {
        FunctionParameter::SymbolValue(s) => assert_eq!("symbol", s),
        _ => assert!(false, "Expected value wasn't returned."),
    }
}

#[test]
fn it_can_create_from_object_value() {
    let primitive = Primitive { object_value: Some(String::from("object")), ..blank_primitive() };

    let func_param = FunctionParameter::from(&primitive);

    match func_param {
        FunctionParameter::ObjectValue(s) => assert_eq!("object", s),
        _ => assert!(false, "Expected value wasn't returned."),
    }
}

#[test]
fn it_can_create_from_number_value() {
    let primitive = Primitive {
        number_bits: (1.1f64).to_bits(),
        number_value_set: true,
        ..blank_primitive()
    };

    let func_param = FunctionParameter::from(&primitive);

    match func_param {
        FunctionParameter::NumberValue(n) => assert_eq!(1.1, f64::from_bits(n)),
        _ => assert!(false, "Expected value wasn't returned."),
    }
}

#[test]
fn it_can_create_from_bigint_value() {
    let primitive = Primitive { bigint_value: 1, bigint_value_set: true, ..blank_primitive() };

    let func_param = FunctionParameter::from(&primitive);

    match func_param {
        FunctionParameter::BigIntValue(n) => assert_eq!(1, n),
        _ => assert!(false, "Expected value wasn't returned."),
    }
}

#[test]
fn it_can_create_from_bool_value() {
    let primitive = Primitive { bool_value: true, bool_value_set: true, ..blank_primitive() };

    let func_param = FunctionParameter::from(&primitive);

    match func_param {
        FunctionParameter::BoolValue(b) => assert!(b),
        _ => assert!(false, "Expected value wasn't returned."),
    }
}

#[test]
fn decode_follows_slot_precedence() {
    // string beats symbol, symbol beats object, object beats number,
    // number beats big-integer, big-integer beats boolean
    let primitive = Primitive {
        string_value: Some(String::from("s")),
        symbol_value: Some(String::from("y")),
        object_value: Some(String::from("{}")),
        number_bits: (2.0f64).to_bits(),
        number_value_set: true,
        bigint_value: 3,
        bigint_value_set: true,
        bool_value: true,
        bool_value_set: true,
    };
    match FunctionParameter::from(&primitive) {
        FunctionParameter::StringValue(s) => assert_eq!("s", s),
        _ => assert!(false, "string slot should win"),
    }

    let primitive = Primitive {
        symbol_value: Some(String::from("y")),
        object_value: Some(String::from("{}")),
        bigint_value: 3,
        bigint_value_set: true,
        ..blank_primitive()
    };
    match FunctionParameter::from(&primitive) {
        FunctionParameter::SymbolValue(s) => assert_eq!("y", s),
        _ => assert!(false, "symbol slot should win"),
    }

    let primitive = Primitive {
        object_value: Some(String::from("{}")),
        number_bits: (2.0f64).to_bits(),
        number_value_set: true,
        ..blank_primitive()
    };
    match FunctionParameter::from(&primitive) {
        FunctionParameter::ObjectValue(s) => assert_eq!("{}", s),
        _ => assert!(false, "object slot should win"),
    }

    let primitive = Primitive {
        number_bits: (2.0f64).to_bits(),
        number_value_set: true,
        bigint_value: 3,
        bigint_value_set: true,
        bool_value: true,
        bool_value_set: true,
        ..blank_primitive()
    };
    match FunctionParameter::from(&primitive) {
        FunctionParameter::NumberValue(n) => assert_eq!(2.0, f64::from_bits(n)),
        _ => assert!(false, "number slot should win"),
    }

    let primitive = Primitive {
        bigint_value: 3,
        bigint_value_set: true,
        bool_value: true,
        bool_value_set: true,
        ..blank_primitive()
    };
    match FunctionParameter::from(&primitive) {
        FunctionParameter::BigIntValue(n) => assert_eq!(3, n),
        _ => assert!(false, "big-integer slot should win"),
    }
}

#[test]
fn decode_of_empty_record_is_none() {
    let primitive = blank_primitive();
    assert!(FunctionParameter::decode(&primitive).is_none());

    let primitive = Primitive { bool_value: true, bool_value_set: true, ..blank_primitive() };
    match FunctionParameter::decode(&primitive) {
        Some(FunctionParameter::BoolValue(b)) => assert!(b),
        _ => assert!(false, "a populated record decodes"),
    }
}
