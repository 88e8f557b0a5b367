use javascript_eval_native::primitive_result::{release_result, release_string, PrimitiveResult};
use javascript_eval_native::v8facade::{JavaScriptError, JavaScriptResult, Output};

fn is_blank(r: &PrimitiveResult) -> bool {
    !r.number_value_set
        && r.number_bits == 0
        && !r.bigint_value_set
        && r.bigint_value == 0
        && !r.bool_value_set
        && !r.bool_value
        && r.string_value.is_none()
        && r.array_value.is_none()
        && r.object_value.is_none()
        && r.error.is_none()
}

#[test]
fn blank_has_no_populated_variant() {
    let r = PrimitiveResult::blank();
    assert!(is_blank(&r));
}

#[test]
fn constructors_populate_exactly_one_variant() {
    let r = PrimitiveResult::create_for_number((2.0f64).to_bits());
    assert!(r.number_value_set);
    assert_eq!(2.0, f64::from_bits(r.number_bits));
    assert!(!r.bigint_value_set && !r.bool_value_set);
    assert!(r.string_value.is_none() && r.array_value.is_none() && r.object_value.is_none());
    assert!(r.error.is_none());

    let r = PrimitiveResult::create_for_bigint(-7);
    assert!(r.bigint_value_set);
    assert_eq!(-7, r.bigint_value);
    assert!(!r.number_value_set && !r.bool_value_set && r.error.is_none());

    let r = PrimitiveResult::create_for_bool(true);
    assert!(r.bool_value_set);
    assert!(r.bool_value);
    assert!(!r.number_value_set && !r.bigint_value_set && r.error.is_none());

    let r = PrimitiveResult::create_for_string(String::from("hello"));
    assert_eq!(Some(String::from("hello")), r.string_value);
    assert!(r.array_value.is_none() && r.object_value.is_none() && r.error.is_none());

    let r = PrimitiveResult::create_for_array(String::from("[1,2,3]"));
    assert_eq!(Some(String::from("[1,2,3]")), r.array_value);
    assert!(r.string_value.is_none() && r.object_value.is_none() && r.error.is_none());

    let r = PrimitiveResult::create_for_object(String::from("{\"a\":1}"));
    assert_eq!(Some(String::from("{\"a\":1}")), r.object_value);
    assert!(r.string_value.is_none() && r.array_value.is_none() && r.error.is_none());
}

#[test]
fn error_record_carries_exception_and_stack_trace() {
    let r = PrimitiveResult::create_for_error(JavaScriptError {
        exception: String::from("boom"),
        stack_trace: String::from("at <anonymous>:1:1"),
    });
    let e = r.error.expect("error record populated");
    assert_eq!("boom", e.exception);
    assert_eq!("at <anonymous>:1:1", e.stack_trace);
    assert!(!r.number_value_set && !r.bigint_value_set && !r.bool_value_set);
    assert!(r.string_value.is_none() && r.array_value.is_none() && r.object_value.is_none());
}

#[test]
fn from_javascriptresult_matches_each_variant() {
    let r = PrimitiveResult::from_javascriptresult(JavaScriptResult::StringValue(String::from(
        "hello world",
    )));
    assert_eq!(Some(String::from("hello world")), r.string_value);

    let r = PrimitiveResult::from_javascriptresult(JavaScriptResult::NumberValue(
        (2.0f64).to_bits(),
    ));
    assert!(r.number_value_set);
    assert_eq!(2.0, f64::from_bits(r.number_bits));

    let r = PrimitiveResult::from_javascriptresult(JavaScriptResult::BigIntValue(42));
    assert!(r.bigint_value_set);
    assert_eq!(42, r.bigint_value);

    let r = PrimitiveResult::from_javascriptresult(JavaScriptResult::BoolValue(false));
    assert!(r.bool_value_set);
    assert!(!r.bool_value);

    let r = PrimitiveResult::from_javascriptresult(JavaScriptResult::ArrayValue(String::from(
        "[1,2,3]",
    )));
    assert_eq!(Some(String::from("[1,2,3]")), r.array_value);

    let r = PrimitiveResult::from_javascriptresult(JavaScriptResult::ObjectValue(String::from(
        "{\"a\":1}",
    )));
    assert_eq!(Some(String::from("{\"a\":1}")), r.object_value);
}

#[test]
fn from_output_flattens_result_and_error() {
    let r = PrimitiveResult::from_output(Output::Result(JavaScriptResult::NumberValue(
        (2.0f64).to_bits(),
    )));
    assert!(r.number_value_set);
    assert_eq!(2.0, f64::from_bits(r.number_bits));

    let r = PrimitiveResult::from_output(Output::Error(JavaScriptError {
        exception: String::from("boom"),
        stack_trace: String::from("trace"),
    }));
    let e = r.error.expect("error record populated");
    assert_eq!("boom", e.exception);
    assert_eq!("trace", e.stack_trace);
}

#[test]
fn release_leaves_the_blank_record() {
    let mut r = PrimitiveResult::create_for_string(String::from("owned"));
    r.release();
    assert!(is_blank(&r));
}

#[test]
fn release_twice_on_the_same_handle_is_safe() {
    let mut handle = Some(PrimitiveResult::create_for_error(JavaScriptError {
        exception: String::from("boom"),
        stack_trace: String::from("trace"),
    }));
    release_result(&mut handle);
    assert!(handle.is_none());
    release_result(&mut handle);
    assert!(handle.is_none());
}

#[test]
fn release_of_null_handle_is_safe() {
    let mut handle: Option<PrimitiveResult> = None;
    release_result(&mut handle);
    assert!(handle.is_none());

    let mut s: Option<String> = None;
    release_string(&mut s);
    assert!(s.is_none());
    let mut s = Some(String::from("owned"));
    release_string(&mut s);
    release_string(&mut s);
    assert!(s.is_none());
}
