use std::sync::atomic::AtomicU64;
use std::sync::Arc;

use mcm_runtime::bindings::{
    McmMeasurementResult_MCM_RESULT_ONE, McmMeasurementResult_MCM_RESULT_ZERO,
    McmStatus_MCM_STATUS_ALREADY_MEASURED, McmStatus_MCM_STATUS_INVALID_QUBIT,
};
use mcm_runtime::runtime::McmRuntimeCore;

fn make_runtime() -> McmRuntimeCore<u64> {
    McmRuntimeCore::new(64).unwrap()
}

#[test]
fn measure_unallocated_fails() {
    let mut rt = make_runtime();
    let err = rt.measure_qubit(0).0.unwrap_err();
    assert_eq!(err, McmStatus_MCM_STATUS_INVALID_QUBIT);
}

#[test]
fn measure_success_stores_result() {
    let mut rt = make_runtime();
    rt.qubit_registry.allocate(2).unwrap();

    let res = rt.measure_qubit(2).0.unwrap();
    assert_eq!(res, McmMeasurementResult_MCM_RESULT_ZERO);
    assert_eq!(
        rt.qubit_registry.get_measurement(2),
        Some(McmMeasurementResult_MCM_RESULT_ZERO)
    );

    rt.qubit_registry.allocate(3).unwrap();
    let res2 = rt.measure_qubit(3).0.unwrap();
    assert_eq!(res2, McmMeasurementResult_MCM_RESULT_ONE);
    assert_eq!(
        rt.qubit_registry.get_measurement(3),
        Some(McmMeasurementResult_MCM_RESULT_ONE)
    );
}

#[test]
fn measure_twice_fails() {
    let mut rt = make_runtime();
    rt.qubit_registry.allocate(5).unwrap();
    rt.measure_qubit(5).0.unwrap();

    let err = rt.measure_qubit(5).0.unwrap_err();
    assert_eq!(err, McmStatus_MCM_STATUS_ALREADY_MEASURED);
}

#[test]
fn measure_fires_callback_with_correct_args() {
    let mut rt = make_runtime();
    rt.qubit_registry.allocate(7).unwrap();
    rt.register_callback(Some(999));

    let (measured, dispatch) = rt.measure_qubit(7);
    assert_eq!(measured, Ok(McmMeasurementResult_MCM_RESULT_ONE));
    let dispatch = dispatch.expect("callback is registered");

    let called = Arc::new(AtomicU64::new(0));
    let seen = called.clone();
    let handle = rt.tokio_runtime().spawn_blocking(move || {
        seen.fetch_add(1, std::sync::atomic::Ordering::SeqCst);
        (dispatch.callback, dispatch.wire_id, dispatch.result)
    });
    let (callback, wire_id, result) = rt.tokio_runtime().block_on(handle).unwrap();

    assert_eq!(called.load(std::sync::atomic::Ordering::SeqCst), 1);
    assert_eq!(callback, 999);
    assert_eq!(wire_id, 7);
    assert_eq!(result, McmMeasurementResult_MCM_RESULT_ONE);
}

#[test]
fn measurement_leaves_callback_and_other_wires() {
    let mut rt = make_runtime();
    rt.qubit_registry.allocate(0).unwrap();
    rt.qubit_registry.allocate(1).unwrap();
    rt.register_callback(Some(5));
    rt.measure_qubit(1).0.unwrap();
    assert_eq!(rt.qubit_registry.get_measurement(0), None);
    assert!(rt.is_callback_registered());
    assert_eq!(rt.qubit_registry.count(), 2);
}

#[test]
fn failed_measurement_changes_nothing() {
    let mut rt = make_runtime();
    rt.qubit_registry.allocate(4).unwrap();
    assert!(rt.measure_qubit(6).0.is_err());
    assert_eq!(rt.qubit_registry.count(), 1);
    assert_eq!(rt.qubit_registry.get_measurement(4), None);
}

#[test]
fn remeasure_after_release_and_reallocate() {
    let mut rt = make_runtime();
    rt.qubit_registry.allocate(0).unwrap();
    rt.measure_qubit(0).0.unwrap();
    rt.qubit_registry.release(0).unwrap();
    rt.qubit_registry.allocate(0).unwrap();
    assert_eq!(rt.measure_qubit(0).0, Ok(McmMeasurementResult_MCM_RESULT_ZERO));
}

#[test]
fn measure_dispatches_only_on_success() {
    let mut rt = make_runtime();
    rt.qubit_registry.allocate(3).unwrap();
    rt.register_callback(Some(41));

    let (first, dispatch) = rt.measure_qubit(3);
    assert_eq!(first, Ok(McmMeasurementResult_MCM_RESULT_ONE));
    let dispatch = dispatch.expect("success with a registered callback dispatches");
    assert_eq!(dispatch.callback, 41);
    assert_eq!(dispatch.wire_id, 3);
    assert_eq!(dispatch.result, McmMeasurementResult_MCM_RESULT_ONE);

    let (second, none) = rt.measure_qubit(3);
    assert_eq!(second, Err(McmStatus_MCM_STATUS_ALREADY_MEASURED));
    assert!(none.is_none());
}

#[test]
fn measure_without_callback_dispatches_nothing() {
    let mut rt = make_runtime();
    rt.qubit_registry.allocate(8).unwrap();
    let (result, dispatch) = rt.measure_qubit(8);
    assert_eq!(result, Ok(McmMeasurementResult_MCM_RESULT_ZERO));
    assert!(dispatch.is_none());
}
