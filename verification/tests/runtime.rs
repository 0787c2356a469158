use std::sync::atomic::AtomicU64;
use std::sync::Arc;

use mcm_runtime::runtime::McmRuntimeCore;

fn make_runtime() -> McmRuntimeCore<u64> {
    McmRuntimeCore::new(64).expect("Tokio runtime should initialize")
}

#[test]
fn create_runtime() {
    let rt = make_runtime();
    assert_eq!(rt.qubit_registry.count(), 0);
    assert!(rt.callback.is_none());
}

#[test]
fn qubit_operations_through_runtime() {
    let mut rt = make_runtime();
    assert!(rt.qubit_registry.allocate(0).is_ok());
    assert!(rt.qubit_registry.allocate(1).is_ok());
    assert_eq!(rt.qubit_registry.count(), 2);
    assert!(rt.qubit_registry.release(0).is_ok());
    assert_eq!(rt.qubit_registry.count(), 1);
}

#[test]
fn register_and_fire_callback() {
    let mut rt = make_runtime();
    let counter = Arc::new(AtomicU64::new(0));

    rt.register_callback(Some(11));
    let dispatch = rt.fire_callback(0, 0).expect("a registered callback is dispatched");
    assert_eq!(dispatch.callback, 11);

    let seen = counter.clone();
    let handle = rt.tokio_runtime().spawn_blocking(move || {
        seen.fetch_add(1, std::sync::atomic::Ordering::SeqCst);
        (dispatch.callback, dispatch.wire_id, dispatch.result)
    });
    let (callback, wire_id, result) = rt.tokio_runtime().block_on(handle).unwrap();

    assert_eq!(counter.load(std::sync::atomic::Ordering::SeqCst), 1);
    assert_eq!(callback, 11);
    assert_eq!(wire_id, 0);
    assert_eq!(result, 0);
}

#[test]
fn fire_callback_without_registration() {
    let rt = make_runtime();
    assert!(rt.fire_callback(42, 1).is_none());
}

#[test]
fn status_string_returns_valid_cstring() {
    let mut rt = make_runtime();
    rt.qubit_registry.allocate(0).unwrap();
    rt.qubit_registry.allocate(1).unwrap();

    let s = rt.status_string();
    assert!(!s.is_empty());
    assert!(s.contains("active_qubits=2"));
    assert!(s.contains("callback_registered=false"));
}

#[test]
fn status_string_exact_text() {
    let mut rt = make_runtime();
    assert_eq!(
        rt.status_string(),
        "MCM Runtime: active_qubits=0, callback_registered=false"
    );
    for wire in 0..12 {
        rt.qubit_registry.allocate(wire).unwrap();
    }
    rt.register_callback(Some(3));
    assert_eq!(
        rt.status_string(),
        "MCM Runtime: active_qubits=12, callback_registered=true"
    );
}

#[test]
fn register_replaces_and_deregisters() {
    let mut rt = make_runtime();
    rt.register_callback(Some(1));
    rt.register_callback(Some(2));
    let dispatch = rt.fire_callback(9, 1).unwrap();
    assert_eq!(dispatch.callback, 2);
    assert_eq!(dispatch.wire_id, 9);
    assert_eq!(dispatch.result, 1);
    assert!(rt.is_callback_registered());

    rt.register_callback(None);
    assert!(!rt.is_callback_registered());
    assert!(rt.fire_callback(9, 1).is_none());
}

#[test]
fn with_executor_starts_empty() {
    let executor = tokio::runtime::Runtime::new().unwrap();
    let rt: McmRuntimeCore<u64> = McmRuntimeCore::with_executor(8, executor);
    assert_eq!(rt.qubit_registry.count(), 0);
    assert!(!rt.is_callback_registered());
}
