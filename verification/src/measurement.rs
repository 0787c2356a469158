//! Mid-circuit measurement of a qubit.
//!
//! The outcome is simulated deterministically from the wire's parity: even
//! wires collapse to |0>, odd wires to |1>.

use vstd::prelude::*;

use crate::bindings::{
    McmMeasurementResult, McmMeasurementResult_MCM_RESULT_ONE,
    McmMeasurementResult_MCM_RESULT_ZERO, McmStatus, McmStatus_MCM_STATUS_INVALID_QUBIT,
};
use crate::qubit::set_measurement_spec;
use crate::runtime::{CallbackDispatch, McmRuntimeCore};

verus! {

/// The simulated outcome of measuring a wire: `MCM_RESULT_ZERO` for even
/// wires, `MCM_RESULT_ONE` for odd ones.
pub open spec fn parity_outcome(wire_id: u64) -> McmMeasurementResult {
    if wire_id % 2 == 0 {
        McmMeasurementResult_MCM_RESULT_ZERO
    } else {
        McmMeasurementResult_MCM_RESULT_ONE
    }
}

/// Measuring a wire: refused with `MCM_STATUS_INVALID_QUBIT` when the wire
/// is not allocated and with `MCM_STATUS_ALREADY_MEASURED` when it was
/// measured before; otherwise the parity outcome is stored and returned.
pub open spec fn measure_spec(wires: Map<u64, Option<u32>>, wire_id: u64) -> (
    Map<u64, Option<u32>>,
    Result<McmMeasurementResult, McmStatus>,
) {
    if !wires.dom().contains(wire_id) {
        (wires, Err(McmStatus_MCM_STATUS_INVALID_QUBIT))
    } else {
        let (after, stored) = set_measurement_spec(wires, wire_id, parity_outcome(wire_id));
        match stored {
            Ok(()) => (after, Ok(parity_outcome(wire_id))),
            Err(e) => (after, Err(e)),
        }
    }
}

impl<C> McmRuntimeCore<C> {
    /// Store the simulated outcome for the qubit of `wire_id`: the parity
    /// outcome, or `MCM_STATUS_INVALID_QUBIT` for a wire that is not
    /// allocated, or `MCM_STATUS_ALREADY_MEASURED` for a qubit measured
    /// before; on failure nothing changes.
    fn store_outcome(&mut self, wire_id: u64) -> (r: Result<McmMeasurementResult, McmStatus>)
        ensures
            (final(self).qubit_registry@, r) == measure_spec(old(self).qubit_registry@, wire_id),
            final(self).qubit_registry.capacity() == old(self).qubit_registry.capacity(),
            final(self).callback == old(self).callback,
            final(self).tokio_runtime == old(self).tokio_runtime,
    {
        if !self.qubit_registry.is_allocated(wire_id) {
            return Err(McmStatus_MCM_STATUS_INVALID_QUBIT);
        }
        let outcome = if wire_id % 2 == 0 {
            McmMeasurementResult_MCM_RESULT_ZERO
        } else {
            McmMeasurementResult_MCM_RESULT_ONE
        };
        match self.qubit_registry.set_measurement(wire_id, outcome) {
            Ok(()) => Ok(outcome),
            Err(e) => Err(e),
        }
    }
}

impl<C: Copy> McmRuntimeCore<C> {
    /// Perform a mid-circuit measurement on the qubit of `wire_id`, store its
    /// outcome, and decide the callback dispatch that the measurement calls
    /// for.
    ///
    /// The first component is the outcome (the wire's parity outcome), or
    /// `MCM_STATUS_INVALID_QUBIT` for a wire that is not allocated, or
    /// `MCM_STATUS_ALREADY_MEASURED` for a qubit measured before; on failure
    /// nothing changes. The second is the dispatch: after a successful
    /// measurement, the registered callback (if any) with the wire and its
    /// outcome, exactly once; after a failed one, nothing. Running the
    /// dispatch on the executor is the caller's part.
    pub fn measure_qubit(&mut self, wire_id: u64) -> (out: (
        Result<McmMeasurementResult, McmStatus>,
        Option<CallbackDispatch<C>>,
    ))
        ensures
            (final(self).qubit_registry@, out.0) == measure_spec(
                old(self).qubit_registry@,
                wire_id,
            ),
            final(self).qubit_registry.capacity() == old(self).qubit_registry.capacity(),
            final(self).callback == old(self).callback,
            final(self).tokio_runtime == old(self).tokio_runtime,
            out.1 == match (out.0, old(self).callback) {
                (Ok(result), Some(callback)) => Some(CallbackDispatch { callback, wire_id, result }),
                _ => None::<CallbackDispatch<C>>,
            },
    {
        let measured = self.store_outcome(wire_id);
        match measured {
            Ok(outcome) => (measured, self.fire_callback(wire_id, outcome)),
            Err(_) => (measured, None),
        }
    }
}

} // verus!
