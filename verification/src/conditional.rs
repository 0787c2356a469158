//! Classical conditions on stored measurement results, for dynamic circuit
//! control flow ("if measured(q0) == 1, apply X(q1)").

use vstd::prelude::*;

use crate::bindings::{McmMeasurementResult, McmStatus, McmStatus_MCM_STATUS_INVALID_QUBIT};
use crate::qubit::measurement_of;
use crate::runtime::McmRuntimeCore;

verus! {

/// Evaluating a condition: refused with `MCM_STATUS_INVALID_QUBIT` when no
/// result is stored for the wire (not allocated, or not measured yet);
/// otherwise whether the stored result equals `expected`.
pub open spec fn condition_spec(
    wires: Map<u64, Option<u32>>,
    wire_id: u64,
    expected: McmMeasurementResult,
) -> Result<bool, McmStatus> {
    match measurement_of(wires, wire_id) {
        Some(actual) => Ok(actual == expected),
        None => Err(McmStatus_MCM_STATUS_INVALID_QUBIT),
    }
}

impl<C> McmRuntimeCore<C> {
    /// Evaluate a classical condition on a prior measurement: whether the
    /// result stored for `wire_id` equals `expected`.
    ///
    /// Fails with `MCM_STATUS_INVALID_QUBIT` when the wire is not allocated
    /// or has not been measured.
    pub fn evaluate_condition(&self, wire_id: u64, expected: McmMeasurementResult) -> (r: Result<
        bool,
        McmStatus,
    >)
        ensures
            r == condition_spec(self.qubit_registry@, wire_id, expected),
    {
        match self.qubit_registry.get_measurement(wire_id) {
            Some(actual) => Ok(actual == expected),
            None => Err(McmStatus_MCM_STATUS_INVALID_QUBIT),
        }
    }
}

} // verus!
