//! Mid-circuit measurement runtime: qubit wire tracking, simulated
//! measurement, classical feedforward conditions and callback dispatch
//! decisions, all with machine-checked contracts.
//!
//! - [`bindings`]: the status and outcome codes shared with the C interface.
//! - [`qubit`]: [`qubit::QubitRegistry`], the wire table with its capacity.
//! - [`runtime`]: [`runtime::McmRuntimeCore`], which owns the registry, the
//!   asynchronous executor and the registered callback.
//! - [`measurement`]: measuring a wire.
//! - [`conditional`]: evaluating a condition on a stored measurement.
//! - [`text`]: the decimal rendering used by the status line.
//! - [`laws`]: properties that relate several operations.

pub mod bindings;
pub mod conditional;
pub mod laws;
pub mod measurement;
pub mod qubit;
pub mod runtime;
pub mod text;
