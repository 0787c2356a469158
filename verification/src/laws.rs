//! Properties of the runtime that relate several operations, stated over
//! the models that the operations' contracts use.

use vstd::prelude::*;

use crate::bindings::{
    McmMeasurementResult, McmMeasurementResult_MCM_RESULT_ONE,
    McmMeasurementResult_MCM_RESULT_ZERO, McmStatus_MCM_STATUS_ALLOCATION_FAIL,
    McmStatus_MCM_STATUS_ALREADY_MEASURED, McmStatus_MCM_STATUS_INVALID_QUBIT,
};
use crate::conditional::condition_spec;
use crate::measurement::{measure_spec, parity_outcome};
use crate::runtime::status_line;
use crate::text::{decimal, digit_char};
use crate::qubit::{
    allocate_spec, lemma_wires_below_capacity, measurement_of, registry_wf, release_spec,
    set_measurement_spec,
};

verus! {

/// Releasing a wire right after allocating it gives back the registry as it
/// was before the allocation.
pub proof fn law_release_undoes_allocate(wires: Map<u64, Option<u32>>, capacity: u64, wire_id: u64)
    requires
        allocate_spec(wires, capacity, wire_id).1 is Ok,
    ensures
        release_spec(allocate_spec(wires, capacity, wire_id).0, wire_id) == (
            wires,
            Ok::<(), u32>(()),
        ),
{
    assert(wires.insert(wire_id, None).remove(wire_id) =~= wires);
}

/// A released wire can be allocated again, and comes back with no stored
/// measurement: release followed by allocate resets a qubit.
pub proof fn law_release_then_allocate_resets(
    wires: Map<u64, Option<u32>>,
    capacity: u64,
    wire_id: u64,
)
    requires
        registry_wf(wires, capacity),
        release_spec(wires, wire_id).1 is Ok,
    ensures
        allocate_spec(release_spec(wires, wire_id).0, capacity, wire_id).1 is Ok,
        measurement_of(allocate_spec(release_spec(wires, wire_id).0, capacity, wire_id).0, wire_id)
            is None,
{
}

/// Allocating adds exactly one wire and releasing removes exactly one:
/// the number of active qubits goes up or down by one on success.
pub proof fn law_count_moves_by_one(wires: Map<u64, Option<u32>>, capacity: u64, wire_id: u64)
    requires
        registry_wf(wires, capacity),
    ensures
        allocate_spec(wires, capacity, wire_id).1 is Ok ==> allocate_spec(
            wires,
            capacity,
            wire_id,
        ).0.len() == wires.len() + 1,
        release_spec(wires, wire_id).1 is Ok ==> release_spec(wires, wire_id).0.len() + 1
            == wires.len(),
{
}

/// Every operation that fails leaves the registry unchanged.
pub proof fn law_failures_change_nothing(
    wires: Map<u64, Option<u32>>,
    capacity: u64,
    wire_id: u64,
    result: u32,
)
    ensures
        allocate_spec(wires, capacity, wire_id).1 is Err ==> allocate_spec(
            wires,
            capacity,
            wire_id,
        ).0 == wires,
        release_spec(wires, wire_id).1 is Err ==> release_spec(wires, wire_id).0 == wires,
        set_measurement_spec(wires, wire_id, result).1 is Err ==> set_measurement_spec(
            wires,
            wire_id,
            result,
        ).0 == wires,
        measure_spec(wires, wire_id).1 is Err ==> measure_spec(wires, wire_id).0 == wires,
{
}

/// The registry invariant (a finite table of wires below the capacity) is
/// kept by every operation, so the number of active qubits never exceeds
/// the capacity.
pub proof fn law_operations_keep_invariant(
    wires: Map<u64, Option<u32>>,
    capacity: u64,
    wire_id: u64,
    result: u32,
)
    requires
        registry_wf(wires, capacity),
    ensures
        registry_wf(allocate_spec(wires, capacity, wire_id).0, capacity),
        registry_wf(release_spec(wires, wire_id).0, capacity),
        registry_wf(set_measurement_spec(wires, wire_id, result).0, capacity),
        registry_wf(measure_spec(wires, wire_id).0, capacity),
        wires.len() <= capacity,
{
    lemma_wires_below_capacity(wires, capacity);
}

/// A stored measurement reads back: after a successful store, the wire's
/// stored result is the one written.
pub proof fn law_measurement_reads_back(wires: Map<u64, Option<u32>>, wire_id: u64, result: u32)
    requires
        set_measurement_spec(wires, wire_id, result).1 is Ok,
    ensures
        measurement_of(set_measurement_spec(wires, wire_id, result).0, wire_id) == Some(result),
{
}

/// A qubit is measured at most once: once a result is stored, a second
/// store or measurement is refused with `MCM_STATUS_ALREADY_MEASURED`, and
/// the first result stays.
pub proof fn law_measured_at_most_once(
    wires: Map<u64, Option<u32>>,
    wire_id: u64,
    first: u32,
    second: u32,
)
    requires
        set_measurement_spec(wires, wire_id, first).1 is Ok,
    ensures
        ({
            let after = set_measurement_spec(wires, wire_id, first).0;
            &&& set_measurement_spec(after, wire_id, second) == (
                after,
                Err::<(), u32>(McmStatus_MCM_STATUS_ALREADY_MEASURED),
            )
            &&& measure_spec(after, wire_id) == (
                after,
                Err::<u32, u32>(McmStatus_MCM_STATUS_ALREADY_MEASURED),
            )
            &&& measurement_of(after, wire_id) == Some(first)
        }),
{
}

/// Feedforward: after a successful measurement, the condition on the wire
/// holds exactly for the expected value equal to the measured outcome, which
/// is the wire's parity outcome.
pub proof fn law_condition_follows_measurement(
    wires: Map<u64, Option<u32>>,
    wire_id: u64,
    expected: McmMeasurementResult,
)
    requires
        measure_spec(wires, wire_id).1 is Ok,
    ensures
        measure_spec(wires, wire_id).1 == Ok::<u32, u32>(parity_outcome(wire_id)),
        condition_spec(measure_spec(wires, wire_id).0, wire_id, expected) == Ok::<bool, u32>(
            expected == parity_outcome(wire_id),
        ),
{
}

/// A condition on a wire that holds no measurement is refused with
/// `MCM_STATUS_INVALID_QUBIT`, whether the wire is unallocated or merely
/// unmeasured; so is measuring an unallocated wire.
pub proof fn law_unmeasured_wires_are_invalid(
    wires: Map<u64, Option<u32>>,
    wire_id: u64,
    expected: McmMeasurementResult,
)
    requires
        measurement_of(wires, wire_id) is None,
    ensures
        condition_spec(wires, wire_id, expected) == Err::<bool, u32>(
            McmStatus_MCM_STATUS_INVALID_QUBIT,
        ),
        !wires.dom().contains(wire_id) ==> measure_spec(wires, wire_id) == (
            wires,
            Err::<u32, u32>(McmStatus_MCM_STATUS_INVALID_QUBIT),
        ),
{
}

/// Operations are local to their wire: allocating, releasing, storing a
/// result on or measuring one wire leaves every other wire, and the result
/// stored for it, as it was.
pub proof fn law_operations_are_wire_local(
    wires: Map<u64, Option<u32>>,
    capacity: u64,
    wire_id: u64,
    other: u64,
    result: u32,
)
    requires
        other != wire_id,
    ensures
        ({
            let a = allocate_spec(wires, capacity, wire_id).0;
            a.dom().contains(other) == wires.dom().contains(other) && measurement_of(a, other)
                == measurement_of(wires, other)
        }),
        ({
            let r = release_spec(wires, wire_id).0;
            r.dom().contains(other) == wires.dom().contains(other) && measurement_of(r, other)
                == measurement_of(wires, other)
        }),
        ({
            let s = set_measurement_spec(wires, wire_id, result).0;
            s.dom().contains(other) == wires.dom().contains(other) && measurement_of(s, other)
                == measurement_of(wires, other)
        }),
        ({
            let m = measure_spec(wires, wire_id).0;
            m.dom().contains(other) == wires.dom().contains(other) && measurement_of(m, other)
                == measurement_of(wires, other)
        }),
{
}

/// Measuring an allocated, not yet measured wire always succeeds; even
/// wires collapse to `MCM_RESULT_ZERO` and odd wires to `MCM_RESULT_ONE`,
/// and exactly that outcome is stored for the wire. Every successful
/// measurement has that outcome.
pub proof fn law_measurement_outcome_is_wire_parity(wires: Map<u64, Option<u32>>, wire_id: u64)
    ensures
        wires.dom().contains(wire_id) && wires[wire_id] is None ==> {
            let outcome = if wire_id % 2 == 0 {
                McmMeasurementResult_MCM_RESULT_ZERO
            } else {
                McmMeasurementResult_MCM_RESULT_ONE
            };
            measure_spec(wires, wire_id) == (
                wires.insert(wire_id, Some(outcome)),
                Ok::<u32, u32>(outcome),
            )
        },
        !wires.dom().contains(wire_id) ==> measure_spec(wires, wire_id) == (
            wires,
            Err::<u32, u32>(McmStatus_MCM_STATUS_INVALID_QUBIT),
        ),
        wires.dom().contains(wire_id) && wires[wire_id] is Some ==> measure_spec(wires, wire_id)
            == (wires, Err::<u32, u32>(McmStatus_MCM_STATUS_ALREADY_MEASURED)),
        measure_spec(wires, wire_id).1 is Ok ==> measure_spec(wires, wire_id).1 == Ok::<u32, u32>(
            if wire_id % 2 == 0 {
                0u32
            } else {
                1u32
            },
        ),
{
}

/// Allocating succeeds exactly for a wire below the capacity that is not
/// allocated yet, and adds that wire with no stored result; any other
/// request is refused with `MCM_STATUS_ALLOCATION_FAIL`.
pub proof fn law_allocate_succeeds_exactly_on_free_wires_in_range(
    wires: Map<u64, Option<u32>>,
    capacity: u64,
    wire_id: u64,
)
    ensures
        wire_id < capacity && !wires.dom().contains(wire_id) ==> allocate_spec(
            wires,
            capacity,
            wire_id,
        ) == (wires.insert(wire_id, None::<u32>), Ok::<(), u32>(())),
        wire_id >= capacity || wires.dom().contains(wire_id) ==> allocate_spec(
            wires,
            capacity,
            wire_id,
        ) == (wires, Err::<(), u32>(McmStatus_MCM_STATUS_ALLOCATION_FAIL)),
{
}

/// Releasing any allocated wire succeeds and removes exactly that wire,
/// whatever result is stored for it; releasing a wire that is not
/// allocated is refused with `MCM_STATUS_INVALID_QUBIT`.
pub proof fn law_release_succeeds_exactly_on_allocated_wires(
    wires: Map<u64, Option<u32>>,
    wire_id: u64,
)
    ensures
        wires.dom().contains(wire_id) ==> release_spec(wires, wire_id) == (
            wires.remove(wire_id),
            Ok::<(), u32>(()),
        ),
        !wires.dom().contains(wire_id) ==> release_spec(wires, wire_id) == (
            wires,
            Err::<(), u32>(McmStatus_MCM_STATUS_INVALID_QUBIT),
        ),
{
}

/// Storing a result on an allocated wire that holds none always succeeds
/// and stores exactly that result; a wire that is not allocated is refused
/// with `MCM_STATUS_INVALID_QUBIT`, one that holds a result with
/// `MCM_STATUS_ALREADY_MEASURED`.
pub proof fn law_store_succeeds_exactly_on_unmeasured_wires(
    wires: Map<u64, Option<u32>>,
    wire_id: u64,
    result: u32,
)
    ensures
        wires.dom().contains(wire_id) && wires[wire_id] is None ==> set_measurement_spec(
            wires,
            wire_id,
            result,
        ) == (wires.insert(wire_id, Some(result)), Ok::<(), u32>(())),
        !wires.dom().contains(wire_id) ==> set_measurement_spec(wires, wire_id, result) == (
            wires,
            Err::<(), u32>(McmStatus_MCM_STATUS_INVALID_QUBIT),
        ),
        wires.dom().contains(wire_id) && wires[wire_id] is Some ==> set_measurement_spec(
            wires,
            wire_id,
            result,
        ) == (wires, Err::<(), u32>(McmStatus_MCM_STATUS_ALREADY_MEASURED)),
{
}

/// A wire that is not allocated holds no measurement, so every condition on
/// it is refused with `MCM_STATUS_INVALID_QUBIT`; an allocated wire holds
/// exactly its table entry, and a condition on a measured wire compares
/// that stored result with the expected one.
pub proof fn law_stored_measurement_is_the_table_entry(
    wires: Map<u64, Option<u32>>,
    wire_id: u64,
    expected: McmMeasurementResult,
)
    ensures
        !wires.dom().contains(wire_id) ==> measurement_of(wires, wire_id) is None,
        !wires.dom().contains(wire_id) ==> condition_spec(wires, wire_id, expected) == Err::<
            bool,
            u32,
        >(McmStatus_MCM_STATUS_INVALID_QUBIT),
        wires.dom().contains(wire_id) ==> measurement_of(wires, wire_id) == wires[wire_id],
        wires.dom().contains(wire_id) && wires[wire_id] is Some ==> condition_spec(
            wires,
            wire_id,
            expected,
        ) == Ok::<bool, u32>(wires[wire_id]->0 == expected),
{
}

/// The status line is the fixed prefix, the decimal count of active qubits,
/// and a flag that reads `true` exactly when a callback is registered,
/// whatever the count.
pub proof fn law_status_line_reports_count_and_registration(active_qubits: nat, registered: bool)
    ensures
        status_line(active_qubits, registered) == "MCM Runtime: active_qubits="@ + decimal(
            active_qubits,
        ) + (if registered {
            ", callback_registered=true"@
        } else {
            ", callback_registered=false"@
        }),
{
    reveal_strlit(", callback_registered=");
    reveal_strlit("true");
    reveal_strlit("false");
    reveal_strlit(", callback_registered=true");
    reveal_strlit(", callback_registered=false");
    assert(", callback_registered="@ + "true"@ =~= ", callback_registered=true"@);
    assert(", callback_registered="@ + "false"@ =~= ", callback_registered=false"@);
    let p = "MCM Runtime: active_qubits="@ + decimal(active_qubits);
    assert(p + ", callback_registered="@ + "true"@ =~= p + (", callback_registered="@ + "true"@));
    assert(p + ", callback_registered="@ + "false"@ =~= p + (", callback_registered="@
        + "false"@));
}

/// The numeric value of a digit character (`'0'` to `'9'`).
pub open spec fn digit_value(c: char) -> nat {
    if c == '1' {
        1
    } else if c == '2' {
        2
    } else if c == '3' {
        3
    } else if c == '4' {
        4
    } else if c == '5' {
        5
    } else if c == '6' {
        6
    } else if c == '7' {
        7
    } else if c == '8' {
        8
    } else if c == '9' {
        9
    } else {
        0
    }
}

/// Each digit character reads back as its digit.
proof fn lemma_digit_value(d: nat)
    requires
        d < 10,
    ensures
        digit_value(digit_char(d)) == d,
        is_digit(digit_char(d)),
        digit_char(d) == '0' ==> d == 0,
{
}

/// The number a string of decimal digits denotes, most significant first.
pub open spec fn digits_value(s: Seq<char>) -> nat
    decreases s.len(),
{
    if s.len() == 0 {
        0
    } else {
        digits_value(s.drop_last()) * 10 + digit_value(s.last())
    }
}

/// Whether a character is one of the digits `'0'` to `'9'`.
pub open spec fn is_digit(c: char) -> bool {
    '0' <= c && c <= '9'
}

/// The decimal rendering of the active-qubit count reads back as that
/// count: the status line carries the true number, written with digits
/// only and without leading zeros.
pub proof fn law_decimal_reads_back(n: nat)
    ensures
        digits_value(decimal(n)) == n,
        decimal(n).len() >= 1,
        forall|i: int| 0 <= i < decimal(n).len() ==> is_digit(#[trigger] decimal(n)[i]),
        decimal(n)[0] == '0' ==> n == 0 && decimal(n).len() == 1,
    decreases n,
{
    if n < 10 {
        lemma_digit_value(n);
        assert(decimal(n).drop_last() =~= Seq::<char>::empty());
        assert(digits_value(Seq::<char>::empty()) == 0);
    } else {
        law_decimal_reads_back(n / 10);
        lemma_digit_value(n % 10);
        let d = decimal(n);
        assert(d.drop_last() =~= decimal(n / 10));
        assert(d.last() == digit_char(n % 10));
        vstd::arithmetic::div_mod::lemma_fundamental_div_mod(n as int, 10);
        assert(digits_value(d) == digits_value(decimal(n / 10)) * 10 + digit_value(d.last()));
        assert forall|i: int| 0 <= i < d.len() implies is_digit(#[trigger] d[i]) by {
            if i < d.len() - 1 {
                assert(d[i] == decimal(n / 10)[i]);
            }
        }
        assert(d[0] == decimal(n / 10)[0]);
    }
}

} // verus!
