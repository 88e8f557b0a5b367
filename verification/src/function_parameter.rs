use vstd::prelude::*;

use crate::Primitive;

verus! {

/// One decoded argument for an engine call. Exactly one variant is populated
/// per argument; a number travels as the IEEE-754 bit pattern of the double it
/// denotes, and an object travels as its JSON text, parsed by the engine only
/// at call time.
pub enum FunctionParameter {
    StringValue(String),
    SymbolValue(String),
    NumberValue(u64),
    BigIntValue(i64),
    BoolValue(bool),
    ObjectValue(String),
}

impl Primitive {
    /// At least one slot of the argument record is populated.
    pub open spec fn is_populated(self) -> bool {
        ||| self.string_value is Some
        ||| self.symbol_value is Some
        ||| self.object_value is Some
        ||| self.number_value_set
        ||| self.bigint_value_set
        ||| self.bool_value_set
    }
}

/// The decode precedence when more than one slot of the record is populated:
/// string, then symbol, then object, then number, then big-integer, then
/// boolean; the first populated slot wins.
pub open spec fn spec_decode(p: Primitive) -> FunctionParameter
    recommends
        p.is_populated(),
{
    match p.string_value {
        Some(s) => FunctionParameter::StringValue(s),
        None => match p.symbol_value {
            Some(s) => FunctionParameter::SymbolValue(s),
            None => match p.object_value {
                Some(s) => FunctionParameter::ObjectValue(s),
                None => if p.number_value_set {
                    FunctionParameter::NumberValue(p.number_bits)
                } else if p.bigint_value_set {
                    FunctionParameter::BigIntValue(p.bigint_value)
                } else {
                    FunctionParameter::BoolValue(p.bool_value)
                },
            },
        },
    }
}

impl FunctionParameter {
    /// Decodes one populated argument record, following the precedence that
    /// `spec_decode` lays down.
    pub fn from(p: &Primitive) -> (r: FunctionParameter)
        requires
            p.is_populated(),
        ensures
            r == spec_decode(*p),
    {
        match &p.string_value {
            Some(s) => FunctionParameter::StringValue(s.clone()),
            None => match &p.symbol_value {
                Some(s) => FunctionParameter::SymbolValue(s.clone()),
                None => match &p.object_value {
                    Some(s) => FunctionParameter::ObjectValue(s.clone()),
                    None => if p.number_value_set {
                        FunctionParameter::NumberValue(p.number_bits)
                    } else if p.bigint_value_set {
                        FunctionParameter::BigIntValue(p.bigint_value)
                    } else {
                        FunctionParameter::BoolValue(p.bool_value)
                    },
                },
            },
        }
    }

    /// Total form of the decoder: `None` exactly when no slot of the record is
    /// populated (an input on which the decode precedence picks nothing).
    pub fn decode(p: &Primitive) -> (r: Option<FunctionParameter>)
        ensures
            p.is_populated() ==> r == Some(spec_decode(*p)),
            !p.is_populated() ==> r is None,
    {
        if p.string_value.is_some() || p.symbol_value.is_some() || p.object_value.is_some()
            || p.number_value_set || p.bigint_value_set || p.bool_value_set {
            Some(FunctionParameter::from(p))
        } else {
            None
        }
    }
}

/// How many slots of an argument record are populated.
pub open spec fn spec_slot_count(p: Primitive) -> int {
    (if p.string_value is Some { 1int } else { 0 })
        + (if p.symbol_value is Some { 1int } else { 0 })
        + (if p.object_value is Some { 1int } else { 0 })
        + (if p.number_value_set { 1int } else { 0 })
        + (if p.bigint_value_set { 1int } else { 0 })
        + (if p.bool_value_set { 1int } else { 0 })
}

/// On the intended shape of an argument record — exactly one slot populated —
/// the decoder yields that slot's variant with its value unchanged, and the
/// precedence order never comes into play.
pub proof fn lemma_decode_picks_the_populated_slot(p: Primitive)
    requires
        spec_slot_count(p) == 1,
    ensures
        p.string_value matches Some(s) ==> spec_decode(p) == FunctionParameter::StringValue(s),
        p.symbol_value matches Some(s) ==> spec_decode(p) == FunctionParameter::SymbolValue(s),
        p.object_value matches Some(s) ==> spec_decode(p) == FunctionParameter::ObjectValue(s),
        p.number_value_set ==> spec_decode(p) == FunctionParameter::NumberValue(p.number_bits),
        p.bigint_value_set ==> spec_decode(p) == FunctionParameter::BigIntValue(p.bigint_value),
        p.bool_value_set ==> spec_decode(p) == FunctionParameter::BoolValue(p.bool_value),
{
}

} // verus!
