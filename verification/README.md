# mcm_runtime

The core of a mid-circuit measurement runtime for quantum circuit
compilers: a registry of allocated qubit wires with their stored
measurement results, deterministic parity-based measurement, classical
feedforward conditions, the decision of when a registered measurement
callback is dispatched, and the runtime's status line. Every function in
`src/` carries a machine-checked contract; `src/laws.rs` states the
properties that relate several operations.

- `src/` is the verified library. The wire table is a `dashmap::DashMap` and
  the executor a `tokio` runtime, both reached through a few trusted items
  whose contracts are documented beside them.
- `app/` is the C-compatible shared library around it: the `extern "C"`
  entry points, the C callback and context pointers, the mutexes that let C
  callers share a handle, logging, and the dispatch of callbacks on the
  executor.

The numeric values of the status codes in `src/bindings.rs` must match the
C header that the C side compiles against.
