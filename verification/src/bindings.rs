//! Status codes and measurement outcomes of the C interface.

#![allow(non_upper_case_globals)]

use vstd::prelude::*;

verus! {

/// A status code returned across the C interface.
pub type McmStatus = u32;

/// A measurement outcome: `MCM_RESULT_ZERO` or `MCM_RESULT_ONE`.
pub type McmMeasurementResult = u32;

/// The operation succeeded.
pub const McmStatus_MCM_STATUS_OK: McmStatus = 0;

/// The wire is not allocated, or holds no measurement where one is needed.
pub const McmStatus_MCM_STATUS_INVALID_QUBIT: McmStatus = 1;

/// The qubit on the wire has already been measured.
pub const McmStatus_MCM_STATUS_ALREADY_MEASURED: McmStatus = 2;

/// The wire is out of range or already allocated.
pub const McmStatus_MCM_STATUS_ALLOCATION_FAIL: McmStatus = 3;

/// The runtime handle was missing or could not be created.
pub const McmStatus_MCM_STATUS_RUNTIME_ERROR: McmStatus = 4;

/// The qubit collapsed to |0>.
pub const McmMeasurementResult_MCM_RESULT_ZERO: McmMeasurementResult = 0;

/// The qubit collapsed to |1>.
pub const McmMeasurementResult_MCM_RESULT_ONE: McmMeasurementResult = 1;

/// The status code of an operation's outcome: `MCM_STATUS_OK` on success,
/// otherwise the error code it failed with.
pub fn status_of(r: Result<(), McmStatus>) -> (status: McmStatus)
    ensures
        status == match r {
            Ok(()) => McmStatus_MCM_STATUS_OK,
            Err(e) => e,
        },
{
    match r {
        Ok(()) => McmStatus_MCM_STATUS_OK,
        Err(e) => e,
    }
}

} // verus!
