use vstd::prelude::*;

use crate::v8facade::{JavaScriptError, JavaScriptResult, Output};

verus! {

/// The error half of a result record as it is handed to the host: the
/// captured exception text and the stack trace text.
pub struct UnsafeJavaScriptError {
    pub exception: String,
    pub stack_trace: String,
}

/// The tagged result record handed back across the boundary. At most one
/// variant is populated; the record starts blank and a constructor fills
/// exactly one slot. The double-precision slot carries the IEEE-754 bit
/// pattern of the number.
pub struct PrimitiveResult {
    pub number_bits: u64,
    pub number_value_set: bool,

    pub bigint_value: i64,
    pub bigint_value_set: bool,

    pub bool_value: bool,
    pub bool_value_set: bool,

    pub string_value: Option<String>,
    pub array_value: Option<String>,
    pub object_value: Option<String>,

    pub error: Option<UnsafeJavaScriptError>,
}

/// The zero state of a result record, before any variant is assigned.
pub open spec fn spec_blank() -> PrimitiveResult {
    PrimitiveResult {
        number_bits: 0,
        number_value_set: false,
        bigint_value: 0,
        bigint_value_set: false,
        bool_value: false,
        bool_value_set: false,
        string_value: None,
        array_value: None,
        object_value: None,
        error: None,
    }
}

/// How many of the record's variants are populated.
pub open spec fn spec_variant_count(r: PrimitiveResult) -> int {
    (if r.number_value_set { 1int } else { 0 })
        + (if r.bigint_value_set { 1int } else { 0 })
        + (if r.bool_value_set { 1int } else { 0 })
        + (if r.string_value is Some { 1int } else { 0 })
        + (if r.array_value is Some { 1int } else { 0 })
        + (if r.object_value is Some { 1int } else { 0 })
        + (if r.error is Some { 1int } else { 0 })
}

/// The record a completion value is flattened into, one constructor's result
/// per variant of the tagged value.
pub open spec fn spec_from_javascriptresult(result: JavaScriptResult) -> PrimitiveResult {
    match result {
        JavaScriptResult::StringValue(v) => (PrimitiveResult {
            string_value: Some(v),
            ..spec_blank()
        }),
        JavaScriptResult::NumberValue(v) => (PrimitiveResult {
            number_bits: v,
            number_value_set: true,
            ..spec_blank()
        }),
        JavaScriptResult::BigIntValue(v) => (PrimitiveResult {
            bigint_value: v,
            bigint_value_set: true,
            ..spec_blank()
        }),
        JavaScriptResult::BoolValue(v) => (PrimitiveResult {
            bool_value: v,
            bool_value_set: true,
            ..spec_blank()
        }),
        JavaScriptResult::ArrayValue(v) => (PrimitiveResult {
            array_value: Some(v),
            ..spec_blank()
        }),
        JavaScriptResult::ObjectValue(v) => (PrimitiveResult {
            object_value: Some(v),
            ..spec_blank()
        }),
    }
}

/// The record an actor response is handed to the host as. A heap-statistics
/// response never takes this shape (script cannot produce one), so it maps to
/// the blank record here and is excluded by the callers' preconditions.
pub open spec fn spec_from_output(output: Output) -> PrimitiveResult {
    match output {
        Output::Result(r) => spec_from_javascriptresult(r),
        Output::Error(e) => (PrimitiveResult {
            error: Some(
                UnsafeJavaScriptError { exception: e.exception, stack_trace: e.stack_trace },
            ),
            ..spec_blank()
        }),
        Output::HeapStatistics(_) => spec_blank(),
    }
}

impl PrimitiveResult {
    /// Builds the zero state: no variant populated.
    pub fn blank() -> (r: PrimitiveResult)
        ensures
            r == spec_blank(),
            spec_variant_count(r) == 0,
    {
        PrimitiveResult {
            number_bits: 0,
            number_value_set: false,
            bigint_value: 0,
            bigint_value_set: false,
            bool_value: false,
            bool_value_set: false,
            string_value: None,
            array_value: None,
            object_value: None,
            error: None,
        }
    }

    /// Builds the record for a number completion value, carried as its
    /// IEEE-754 bit pattern.
    pub fn create_for_number(number_bits: u64) -> (r: PrimitiveResult)
        ensures
            r == (PrimitiveResult { number_bits, number_value_set: true, ..spec_blank() }),
            spec_variant_count(r) == 1,
    {
        let mut r = PrimitiveResult::blank();
        r.number_bits = number_bits;
        r.number_value_set = true;
        r
    }

    /// Builds the record for a big-integer completion value.
    pub fn create_for_bigint(bigint: i64) -> (r: PrimitiveResult)
        ensures
            r == (PrimitiveResult { bigint_value: bigint, bigint_value_set: true, ..spec_blank() }),
            spec_variant_count(r) == 1,
    {
        let mut r = PrimitiveResult::blank();
        r.bigint_value = bigint;
        r.bigint_value_set = true;
        r
    }

    /// Builds the record for a boolean completion value.
    pub fn create_for_bool(boolean: bool) -> (r: PrimitiveResult)
        ensures
            r == (PrimitiveResult { bool_value: boolean, bool_value_set: true, ..spec_blank() }),
            spec_variant_count(r) == 1,
    {
        let mut r = PrimitiveResult::blank();
        r.bool_value = boolean;
        r.bool_value_set = true;
        r
    }

    /// Builds the record for a string completion value.
    pub fn create_for_string(string: String) -> (r: PrimitiveResult)
        ensures
            r == (PrimitiveResult { string_value: Some(string), ..spec_blank() }),
            spec_variant_count(r) == 1,
    {
        let mut r = PrimitiveResult::blank();
        r.string_value = Some(string);
        r
    }

    /// Builds the record for an array completion value, carried as JSON text.
    pub fn create_for_array(array: String) -> (r: PrimitiveResult)
        ensures
            r == (PrimitiveResult { array_value: Some(array), ..spec_blank() }),
            spec_variant_count(r) == 1,
    {
        let mut r = PrimitiveResult::blank();
        r.array_value = Some(array);
        r
    }

    /// Builds the record for an object completion value, carried as JSON text.
    pub fn create_for_object(object: String) -> (r: PrimitiveResult)
        ensures
            r == (PrimitiveResult { object_value: Some(object), ..spec_blank() }),
            spec_variant_count(r) == 1,
    {
        let mut r = PrimitiveResult::blank();
        r.object_value = Some(object);
        r
    }

    /// Builds the record for a captured failure: the exception text and the
    /// stack trace text move into the nested error record.
    pub fn create_for_error(javascript_error: JavaScriptError) -> (r: PrimitiveResult)
        ensures
            r == (PrimitiveResult {
                error: Some(
                    UnsafeJavaScriptError {
                        exception: javascript_error.exception,
                        stack_trace: javascript_error.stack_trace,
                    },
                ),
                ..spec_blank()
            }),
            spec_variant_count(r) == 1,
    {
        let mut r = PrimitiveResult::blank();
        r.error = Some(
            UnsafeJavaScriptError {
                exception: javascript_error.exception,
                stack_trace: javascript_error.stack_trace,
            },
        );
        r
    }

    /// Flattens an actor response into the record handed to the host. A
    /// heap-statistics response cannot reach this point: script execution
    /// never produces one.
    pub fn from_output(output: Output) -> (r: PrimitiveResult)
        requires
            !(output is HeapStatistics),
        ensures
            r == spec_from_output(output),
            spec_variant_count(r) == 1,
    {
        match output {
            Output::Result(res) => PrimitiveResult::from_javascriptresult(res),
            Output::Error(e) => PrimitiveResult::create_for_error(e),
            Output::HeapStatistics(_) => PrimitiveResult::blank(),
        }
    }

    /// Flattens a completion value into the record handed to the host.
    pub fn from_javascriptresult(result: JavaScriptResult) -> (r: PrimitiveResult)
        ensures
            r == spec_from_javascriptresult(result),
            spec_variant_count(r) == 1,
    {
        match result {
            JavaScriptResult::ArrayValue(v) => PrimitiveResult::create_for_array(v),
            JavaScriptResult::StringValue(v) => PrimitiveResult::create_for_string(v),
            JavaScriptResult::NumberValue(v) => PrimitiveResult::create_for_number(v),
            JavaScriptResult::BigIntValue(v) => PrimitiveResult::create_for_bigint(v),
            JavaScriptResult::BoolValue(v) => PrimitiveResult::create_for_bool(v),
            JavaScriptResult::ObjectValue(v) => PrimitiveResult::create_for_object(v),
        }
    }

    /// Releases every populated field of the record and leaves the blank
    /// record behind: the owned strings and the nested error record, if
    /// present, are dropped with the old value.
    pub fn release(&mut self)
        ensures
            *final(self) == spec_blank(),
    {
        *self = PrimitiveResult::blank();
    }
}

/// Releases the record a handle refers to, if any. A handle that refers to
/// nothing is already released, so releasing it again changes nothing: double
/// release and release of an empty handle are both safe no-ops.
pub fn release_result(handle: &mut Option<PrimitiveResult>)
    ensures
        *final(handle) is None,
{
    *handle = None;
}

/// Releases the string a handle refers to, if any; a no-op on an empty
/// handle, exactly as `release_result` is.
pub fn release_string(handle: &mut Option<String>)
    ensures
        *final(handle) is None,
{
    *handle = None;
}

/// The state a result handle is left in by the release operation, whatever it
/// held before: released.
pub open spec fn spec_released(handle: Option<PrimitiveResult>) -> Option<PrimitiveResult> {
    None
}

/// Release idempotence: releasing a handle twice leaves exactly the state
/// that releasing it once leaves, and releasing an already empty handle
/// changes nothing.
pub proof fn lemma_release_idempotent(handle: Option<PrimitiveResult>)
    ensures
        spec_released(spec_released(handle)) == spec_released(handle),
        handle is None ==> spec_released(handle) == handle,
{
}

} // verus!
