use mcm_runtime::bindings::{
    McmMeasurementResult_MCM_RESULT_ONE, McmMeasurementResult_MCM_RESULT_ZERO,
    McmStatus_MCM_STATUS_INVALID_QUBIT,
};
use mcm_runtime::runtime::McmRuntimeCore;

fn make_runtime() -> McmRuntimeCore<u64> {
    McmRuntimeCore::new(64).unwrap()
}

#[test]
fn evaluate_unmeasured_qubit_fails() {
    let mut rt = make_runtime();
    rt.qubit_registry.allocate(10).unwrap();

    let err = rt
        .evaluate_condition(10, McmMeasurementResult_MCM_RESULT_ZERO)
        .unwrap_err();
    assert_eq!(err, McmStatus_MCM_STATUS_INVALID_QUBIT);
}

#[test]
fn evaluate_unallocated_qubit_fails() {
    let rt = make_runtime();

    let err = rt
        .evaluate_condition(99, McmMeasurementResult_MCM_RESULT_ONE)
        .unwrap_err();
    assert_eq!(err, McmStatus_MCM_STATUS_INVALID_QUBIT);
}

#[test]
fn evaluate_matches_correctly() {
    let mut rt = make_runtime();
    rt.qubit_registry.allocate(2).unwrap();
    rt.measure_qubit(2).0.unwrap();

    let matched = rt
        .evaluate_condition(2, McmMeasurementResult_MCM_RESULT_ZERO)
        .unwrap();
    assert!(matched);

    let not_matched = rt
        .evaluate_condition(2, McmMeasurementResult_MCM_RESULT_ONE)
        .unwrap();
    assert!(!not_matched);
}

#[test]
fn teleportation_corrections_follow_both_measurements() {
    let mut rt = make_runtime();
    for wire in 0..3 {
        rt.qubit_registry.allocate(wire).unwrap();
    }
    let m0 = rt.measure_qubit(0).0.unwrap();
    let m1 = rt.measure_qubit(1).0.unwrap();
    assert_eq!(m0, McmMeasurementResult_MCM_RESULT_ZERO);
    assert_eq!(m1, McmMeasurementResult_MCM_RESULT_ONE);
    assert_eq!(rt.evaluate_condition(0, McmMeasurementResult_MCM_RESULT_ONE), Ok(false));
    assert_eq!(rt.evaluate_condition(1, McmMeasurementResult_MCM_RESULT_ONE), Ok(true));
    assert_eq!(
        rt.evaluate_condition(2, McmMeasurementResult_MCM_RESULT_ONE),
        Err(McmStatus_MCM_STATUS_INVALID_QUBIT)
    );
}

#[test]
fn repeat_until_success_loop() {
    let mut rt = make_runtime();
    rt.qubit_registry.allocate(1).unwrap();
    rt.qubit_registry.allocate(0).unwrap();
    let mut success = false;
    for _attempt in 0..5 {
        rt.measure_qubit(0).0.unwrap();
        if rt.evaluate_condition(0, McmMeasurementResult_MCM_RESULT_ZERO).unwrap() {
            success = true;
            break;
        }
        rt.qubit_registry.release(0).unwrap();
        rt.qubit_registry.allocate(0).unwrap();
    }
    assert!(success);
    assert_eq!(rt.status_string(), "MCM Runtime: active_qubits=2, callback_registered=false");
}
