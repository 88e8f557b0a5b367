use vstd::prelude::*;

pub mod function_parameter;
pub mod primitive_result;
pub mod v8facade;

verus! {

/// One argument record as it crosses the host boundary, with the raw slots
/// replaced by owned values: each reference-typed slot is `Some` exactly when
/// the host populated it, and the double-precision slot carries the IEEE-754
/// bit pattern of the number, so that the codec never interprets it.
pub struct Primitive {
    pub number_bits: u64,
    pub number_value_set: bool,

    pub bigint_value: i64,
    pub bigint_value_set: bool,

    pub bool_value: bool,
    pub bool_value_set: bool,

    pub string_value: Option<String>,
    pub symbol_value: Option<String>,
    pub object_value: Option<String>,
}

/// A point-in-time reading of the engine's memory counters. It is a plain
/// value with no identity beyond the read.
#[derive(Clone, Copy)]
pub struct V8HeapStatistics {
    pub total_heap_size: usize,
    pub total_heap_size_executable: usize,
    pub total_physical_size: usize,
    pub total_available_size: usize,
    pub used_heap_size: usize,
    pub heap_size_limit: usize,
    pub malloced_memory: usize,
    pub does_zap_garbage: usize,
    pub number_of_native_contexts: usize,
    pub number_of_detached_contexts: usize,
    pub peak_malloced_memory: usize,
    pub used_global_handles_size: usize,
    pub total_global_handles_size: usize,
}

impl V8HeapStatistics {
    /// What a sound reading satisfies: the live portion of the heap fits in
    /// the committed heap, the committed heap fits under the configured limit,
    /// and an engine with at least one execution context reports it.
    pub open spec fn is_consistent(self) -> bool {
        &&& self.used_heap_size <= self.total_heap_size
        &&& self.total_heap_size <= self.heap_size_limit
        &&& self.number_of_native_contexts >= 1
    }

    /// Decides `is_consistent` for a reading handed in by the host.
    pub fn check_consistency(&self) -> (ok: bool)
        ensures
            ok == self.is_consistent(),
    {
        self.used_heap_size <= self.total_heap_size
            && self.total_heap_size <= self.heap_size_limit
            && self.number_of_native_contexts >= 1
    }
}

} // verus!
