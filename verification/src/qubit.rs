//! Qubit allocation, wire tracking and stored measurement results.
//!
//! A [`QubitRegistry`] maps each allocated wire index to the measurement
//! result stored for it (`None` until the qubit is measured). Wire indices
//! must lie in `[0, max_qubits)`. The table itself is a `dashmap::DashMap`;
//! what the proofs know of it comes from the trusted items at the top of
//! this file.

use dashmap::DashMap;
use vstd::prelude::*;

use crate::bindings::{
    McmStatus, McmStatus_MCM_STATUS_ALLOCATION_FAIL, McmStatus_MCM_STATUS_ALREADY_MEASURED,
    McmStatus_MCM_STATUS_INVALID_QUBIT,
};

verus! {

// -----------------------------------------------------------------------------
// The wire table: trusted declarations of the `dashmap` items in use
// -----------------------------------------------------------------------------

/// `dashmap::DashMap`, carried as an opaque value.
#[verifier::external_type_specification]
#[verifier::external_body]
#[verifier::reject_recursive_types(K)]
#[verifier::reject_recursive_types(V)]
#[verifier::reject_recursive_types(S)]
pub struct ExDashMap<K, V, S>(DashMap<K, V, S>);

/// Per-qubit metadata stored in the wire table.
#[derive(Debug, Clone)]
pub struct QubitState {
    /// The classical result of the measurement, once the qubit is measured.
    pub measurement_result: Option<u32>,
}

/// What a wire table holds: for each wire in it, the measurement result
/// stored for that wire.
pub uninterp spec fn wire_table(table: DashMap<u64, QubitState>) -> Map<u64, Option<u32>>;

/// Calls `DashMap::with_capacity`, which builds a map holding no entries.
///
/// `with_capacity` rounds the capacity up to a multiple of the shard count
/// (an addition that overflows near `usize::MAX`) and pre-allocates every
/// shard; the `requires` keeps the capacity far from both overflows. Whether
/// the operating system grants the memory for a large capacity is not
/// stated: where it does not, the allocator aborts the process.
#[verifier::external_body]
fn table_with_capacity(capacity: usize) -> (fresh: DashMap<u64, QubitState>)
    requires
        capacity <= usize::MAX / 16,
    ensures
        wire_table(fresh) =~= Map::empty(),
{
    DashMap::with_capacity(capacity)
}

/// Calls `DashMap::contains_key`: whether the wire is in the table.
#[verifier::external_body]
fn table_contains_key(table: &DashMap<u64, QubitState>, wire_id: u64) -> (found: bool)
    ensures
        found == wire_table(*table).dom().contains(wire_id),
{
    table.contains_key(&wire_id)
}

/// Calls `DashMap::get` and reads the stored result out of the entry found:
/// `None` when the wire is not in the table.
#[verifier::external_body]
fn table_get(table: &DashMap<u64, QubitState>, wire_id: u64) -> (entry: Option<Option<u32>>)
    ensures
        entry == (if wire_table(*table).dom().contains(wire_id) {
            Some(wire_table(*table)[wire_id])
        } else {
            None::<Option<u32>>
        }),
{
    table.get(&wire_id).map(|state| state.measurement_result)
}

/// Calls `DashMap::insert`: the wire now maps to the given state, whether or
/// not it was in the table before; every other wire is unchanged. The call
/// does not unwind: a table large enough for `hashbrown`'s capacity-overflow
/// panic cannot be held in memory, and a failed allocation aborts.
#[verifier::external_body]
fn table_insert(table: &mut DashMap<u64, QubitState>, wire_id: u64, state: QubitState)
    ensures
        wire_table(*final(table)) == wire_table(*old(table)).insert(
            wire_id,
            state.measurement_result,
        ),
    no_unwind
{
    table.insert(wire_id, state);
}

/// Calls `DashMap::remove`: the wire leaves the table, and the result stored
/// for it comes back when it was there. Removal allocates nothing and does
/// not unwind.
#[verifier::external_body]
fn table_remove(table: &mut DashMap<u64, QubitState>, wire_id: u64) -> (removed: Option<
    Option<u32>,
>)
    ensures
        removed == (if wire_table(*old(table)).dom().contains(wire_id) {
            Some(wire_table(*old(table))[wire_id])
        } else {
            None::<Option<u32>>
        }),
        wire_table(*final(table)) == wire_table(*old(table)).remove(wire_id),
    no_unwind
{
    table.remove(&wire_id).map(|(_, state)| state.measurement_result)
}

/// Calls `DashMap::len`: the number of wires in the table.
#[verifier::external_body]
fn table_len(table: &DashMap<u64, QubitState>) -> (n: usize)
    ensures
        n == wire_table(*table).len(),
{
    table.len()
}

// -----------------------------------------------------------------------------
// The model of the registry
// -----------------------------------------------------------------------------

/// The wire table of a registry is finite and holds only wires below the
/// capacity.
pub open spec fn registry_wf(wires: Map<u64, Option<u32>>, capacity: u64) -> bool {
    &&& wires.dom().finite()
    &&& forall|w: u64| #[trigger] wires.dom().contains(w) ==> w < capacity
}

/// Allocating a wire: refused when the wire is out of range or already
/// allocated; otherwise the wire enters the table with no measurement.
pub open spec fn allocate_spec(wires: Map<u64, Option<u32>>, capacity: u64, wire_id: u64) -> (
    Map<u64, Option<u32>>,
    Result<(), McmStatus>,
) {
    if wire_id >= capacity || wires.dom().contains(wire_id) {
        (wires, Err(McmStatus_MCM_STATUS_ALLOCATION_FAIL))
    } else {
        (wires.insert(wire_id, None), Ok(()))
    }
}

/// Releasing a wire: refused when the wire is not allocated; otherwise the
/// wire and its stored result leave the table.
pub open spec fn release_spec(wires: Map<u64, Option<u32>>, wire_id: u64) -> (
    Map<u64, Option<u32>>,
    Result<(), McmStatus>,
) {
    if wires.dom().contains(wire_id) {
        (wires.remove(wire_id), Ok(()))
    } else {
        (wires, Err(McmStatus_MCM_STATUS_INVALID_QUBIT))
    }
}

/// Storing a measurement result: refused when the wire is not allocated, or
/// when a result is already stored for it; otherwise the result is stored.
pub open spec fn set_measurement_spec(
    wires: Map<u64, Option<u32>>,
    wire_id: u64,
    result: u32,
) -> (Map<u64, Option<u32>>, Result<(), McmStatus>) {
    if !wires.dom().contains(wire_id) {
        (wires, Err(McmStatus_MCM_STATUS_INVALID_QUBIT))
    } else if wires[wire_id] is Some {
        (wires, Err(McmStatus_MCM_STATUS_ALREADY_MEASURED))
    } else {
        (wires.insert(wire_id, Some(result)), Ok(()))
    }
}

/// The result stored for a wire: `None` when the wire is not allocated or
/// not yet measured.
pub open spec fn measurement_of(wires: Map<u64, Option<u32>>, wire_id: u64) -> Option<u32> {
    if wires.dom().contains(wire_id) {
        wires[wire_id]
    } else {
        None
    }
}

// -----------------------------------------------------------------------------
// QubitRegistry
// -----------------------------------------------------------------------------

/// The largest number of wires a new registry reserves room for up front.
pub const PRESIZE_LIMIT: u64 = 65536;

/// Registry of the allocated qubits and their stored measurement results,
/// with a fixed capacity: wire indices lie in `[0, max_qubits)`.
#[derive(Debug)]
pub struct QubitRegistry {
    active_qubits: DashMap<u64, QubitState>,
    max_qubits: u64,
}

impl View for QubitRegistry {
    type V = Map<u64, Option<u32>>;

    /// Each allocated wire, mapped to its stored measurement result.
    closed spec fn view(&self) -> Map<u64, Option<u32>> {
        wire_table(self.active_qubits)
    }
}

impl QubitRegistry {
    /// The capacity the registry was created with.
    pub closed spec fn capacity(&self) -> u64 {
        self.max_qubits
    }

    #[verifier::type_invariant]
    spec fn inv(&self) -> bool {
        registry_wf(wire_table(self.active_qubits), self.max_qubits)
    }

    /// Create an empty registry with the given capacity.
    ///
    /// The table is pre-sized for up to `PRESIZE_LIMIT` wires; a larger
    /// capacity is accepted all the same, and the table grows as wires are
    /// allocated.
    pub fn new(max_qubits: u64) -> (registry: Self)
        ensures
            registry@ == Map::<u64, Option<u32>>::empty(),
            registry.capacity() == max_qubits,
    {
        let presize = if max_qubits < PRESIZE_LIMIT {
            max_qubits
        } else {
            PRESIZE_LIMIT
        };
        let table = table_with_capacity(presize as usize);
        QubitRegistry { active_qubits: table, max_qubits }
    }

    /// Allocate a qubit on the given wire.
    ///
    /// Fails with `MCM_STATUS_ALLOCATION_FAIL` when `wire_id >= max_qubits`
    /// or when the wire is already allocated; the registry is then unchanged.
    pub fn allocate(&mut self, wire_id: u64) -> (r: Result<(), McmStatus>)
        ensures
            (final(self)@, r) == allocate_spec(old(self)@, old(self).capacity(), wire_id),
            final(self).capacity() == old(self).capacity(),
            registry_wf(final(self)@, final(self).capacity()),
    {
        proof {
            use_type_invariant(&*self);
        }
        if wire_id >= self.max_qubits {
            return Err(McmStatus_MCM_STATUS_ALLOCATION_FAIL);
        }
        if table_contains_key(&self.active_qubits, wire_id) {
            return Err(McmStatus_MCM_STATUS_ALLOCATION_FAIL);
        }
        table_insert(&mut self.active_qubits, wire_id, QubitState { measurement_result: None });
        proof {
            use_type_invariant(&*self);
        }
        Ok(())
    }
    /// Release the qubit on the given wire, returning the wire to the free
    /// pool together with any result stored for it.
    ///
    /// Fails with `MCM_STATUS_INVALID_QUBIT` when the wire is not allocated;
    /// the registry is then unchanged.
    pub fn release(&mut self, wire_id: u64) -> (r: Result<(), McmStatus>)
        ensures
            (final(self)@, r) == release_spec(old(self)@, wire_id),
            final(self).capacity() == old(self).capacity(),
            registry_wf(final(self)@, final(self).capacity()),
    {
        proof {
            use_type_invariant(&*self);
        }
        let removed = table_remove(&mut self.active_qubits, wire_id);
        proof {
            use_type_invariant(&*self);
        }
        match removed {
            Some(_) => Ok(()),
            None => Err(McmStatus_MCM_STATUS_INVALID_QUBIT),
        }
    }

    /// The number of currently allocated qubits; never more than the
    /// capacity.
    pub fn count(&self) -> (n: u64)
        ensures
            n == self@.len(),
            n <= self.capacity(),
    {
        proof {
            use_type_invariant(self);
            lemma_wires_below_capacity(self@, self.capacity());
        }
        table_len(&self.active_qubits) as u64
    }

    /// Whether the wire is currently allocated.
    pub fn is_allocated(&self, wire_id: u64) -> (allocated: bool)
        ensures
            allocated == self@.dom().contains(wire_id),
    {
        table_contains_key(&self.active_qubits, wire_id)
    }

    /// Store a measurement result for an allocated qubit.
    ///
    /// Fails with `MCM_STATUS_INVALID_QUBIT` when the wire is not allocated,
    /// and with `MCM_STATUS_ALREADY_MEASURED` when a result is already
    /// stored for it (a qubit is measured at most once); the registry is
    /// then unchanged.
    pub fn set_measurement(&mut self, wire_id: u64, result: u32) -> (r: Result<(), McmStatus>)
        ensures
            (final(self)@, r) == set_measurement_spec(old(self)@, wire_id, result),
            final(self).capacity() == old(self).capacity(),
            registry_wf(final(self)@, final(self).capacity()),
    {
        proof {
            use_type_invariant(&*self);
        }
        match table_get(&self.active_qubits, wire_id) {
            None => Err(McmStatus_MCM_STATUS_INVALID_QUBIT),
            Some(Some(_)) => Err(McmStatus_MCM_STATUS_ALREADY_MEASURED),
            Some(None) => {
                table_insert(
                    &mut self.active_qubits,
                    wire_id,
                    QubitState { measurement_result: Some(result) },
                );
                proof {
                    use_type_invariant(&*self);
                }
                Ok(())
            },
        }
    }

    /// The measurement result stored for the wire: `None` when the wire is
    /// not allocated or has not been measured.
    pub fn get_measurement(&self, wire_id: u64) -> (result: Option<u32>)
        ensures
            result == measurement_of(self@, wire_id),
    {
        match table_get(&self.active_qubits, wire_id) {
            Some(stored) => stored,
            None => None,
        }
    }
}

/// A finite set of wires, all below `capacity`, has at most `capacity`
/// members.
pub proof fn lemma_wires_below_capacity(wires: Map<u64, Option<u32>>, capacity: u64)
    requires
        registry_wf(wires, capacity),
    ensures
        wires.len() <= capacity,
{
    let widen = |w: u64| w as int;
    let indices = wires.dom().map(widen);
    let range = vstd::set_lib::set_int_range(0, capacity as int);
    assert forall|i: int| #[trigger] indices.contains(i) implies range.contains(i) by {
        let w = choose|w: u64| wires.dom().contains(w) && widen(w) == i;
        assert(wires.dom().contains(w));
    }
    vstd::set_lib::lemma_int_range(0, capacity as int);
    vstd::set_lib::lemma_len_subset(indices, range);
    assert(vstd::relations::injective_on(widen, wires.dom()));
    vstd::set_lib::lemma_map_size(wires.dom(), indices, widen);
}

} // verus!
