//! The runtime core: the qubit registry, the asynchronous executor that
//! measurement callbacks are dispatched on, and the registered callback.
//!
//! The callback itself is whatever the embedding layer registers: the core
//! is generic over it (`C`), stores at most one, and decides when it is to
//! be dispatched and with which arguments ([`McmRuntimeCore::fire_callback`]).
//! Running it on the executor is left to the caller.

use tokio::runtime::Runtime;
use vstd::prelude::*;
use vstd::string::*;

use crate::bindings::McmMeasurementResult;
use crate::qubit::QubitRegistry;
use crate::text::{decimal, push_decimal};

verus! {

/// `tokio::runtime::Runtime`, carried as an opaque value.
#[verifier::external_type_specification]
#[verifier::external_body]
pub struct ExRuntime(Runtime);

/// Calls `tokio::runtime::Runtime::new`, which starts a multi-threaded
/// executor. Whether it starts depends on the operating system's resources:
/// nothing is stated of the outcome. A driver that cannot be initialized
/// gives `None`; worker threads that the operating system refuses to spawn
/// make tokio panic ("OS can't spawn worker thread"), which is not excluded.
#[verifier::external_body]
fn start_executor() -> Option<Runtime> {
    Runtime::new().ok()
}

/// A decision to run the registered callback for one measurement.
#[derive(Debug, Clone, Copy)]
pub struct CallbackDispatch<C> {
    /// The registered callback.
    pub callback: C,
    /// The wire that was measured.
    pub wire_id: u64,
    /// The outcome of the measurement.
    pub result: McmMeasurementResult,
}

/// The status line: the number of active qubits and whether a callback is
/// registered.
pub open spec fn status_line(active_qubits: nat, callback_registered: bool) -> Seq<char> {
    "MCM Runtime: active_qubits="@ + decimal(active_qubits) + ", callback_registered="@ + (
    if callback_registered {
        "true"@
    } else {
        "false"@
    })
}

/// The central runtime: owns the qubit registry, the executor and the
/// registered measurement callback, if any.
pub struct McmRuntimeCore<C> {
    /// Qubit allocation and state.
    pub qubit_registry: QubitRegistry,
    /// The executor that measurement callbacks are dispatched on.
    pub tokio_runtime: Runtime,
    /// The registered measurement callback, if any.
    pub callback: Option<C>,
}

impl<C> McmRuntimeCore<C> {
    /// Create a runtime with the given qubit capacity, starting its
    /// executor. Returns `Err(())` when the executor cannot be started (its
    /// I/O driver cannot be initialized). When the operating system refuses
    /// to spawn the executor's worker threads, tokio panics instead of
    /// returning an error; that case is not covered here.
    pub fn new(max_qubits: u64) -> (r: Result<Self, ()>)
        ensures
            r matches Ok(core) ==> {
                &&& core.qubit_registry@ == Map::<u64, Option<u32>>::empty()
                &&& core.qubit_registry.capacity() == max_qubits
                &&& core.callback is None
            },
    {
        match start_executor() {
            Some(tokio_runtime) => Ok(Self::with_executor(max_qubits, tokio_runtime)),
            None => Err(()),
        }
    }

    /// Create a runtime with the given qubit capacity on an executor that is
    /// already running: no qubit is allocated and no callback registered.
    pub fn with_executor(max_qubits: u64, tokio_runtime: Runtime) -> (core: Self)
        ensures
            core.qubit_registry@ == Map::<u64, Option<u32>>::empty(),
            core.qubit_registry.capacity() == max_qubits,
            core.callback is None,
            core.tokio_runtime == tokio_runtime,
    {
        McmRuntimeCore {
            qubit_registry: QubitRegistry::new(max_qubits),
            tokio_runtime,
            callback: None,
        }
    }

    /// The executor that callbacks are dispatched on.
    pub fn tokio_runtime(&self) -> (rt: &Runtime)
        ensures
            *rt == self.tokio_runtime,
    {
        &self.tokio_runtime
    }

    /// Register a callback (`Some`), replacing any registered before, or
    /// deregister the current one (`None`).
    pub fn register_callback(&mut self, callback: Option<C>)
        ensures
            final(self).callback == callback,
            final(self).qubit_registry == old(self).qubit_registry,
            final(self).tokio_runtime == old(self).tokio_runtime,
    {
        self.callback = callback;
    }

    /// Whether a callback is registered.
    pub fn is_callback_registered(&self) -> (registered: bool)
        ensures
            registered == self.callback is Some,
    {
        self.callback.is_some()
    }

    /// The human-readable status line:
    /// `MCM Runtime: active_qubits=<n>, callback_registered=<true|false>`.
    pub fn status_string(&self) -> (s: String)
        ensures
            s@ == status_line(self.qubit_registry@.len(), self.callback is Some),
    {
        let active = self.qubit_registry.count();
        let mut s = String::from_str("MCM Runtime: active_qubits=");
        push_decimal(&mut s, active);
        s.append(", callback_registered=");
        if self.callback.is_some() {
            s.append("true");
        } else {
            s.append("false");
        }
        s
    }
}

impl<C: Copy> McmRuntimeCore<C> {
    /// Decide the dispatch of the registered callback for a measurement of
    /// `wire_id` with outcome `result`: `None` when no callback is
    /// registered, otherwise the callback with exactly these arguments.
    pub fn fire_callback(&self, wire_id: u64, result: McmMeasurementResult) -> (d: Option<
        CallbackDispatch<C>,
    >)
        ensures
            d == match self.callback {
                Some(callback) => Some(CallbackDispatch { callback, wire_id, result }),
                None => None::<CallbackDispatch<C>>,
            },
    {
        match self.callback {
            Some(callback) => Some(CallbackDispatch { callback, wire_id, result }),
            None => None,
        }
    }
}

} // verus!
