use raptors::cost_model::MockOpCode;
use raptors::messages::LoadfreeMessage;
use raptors::tensor_types::MockTensor;

use std::time;

#[test]
fn tensor_types_create_dummy_workload_test() {
    let load = MockTensor::new(MockOpCode::AddOp);
    assert_eq!(load.payload(), 11 as usize);
    assert_eq!(load.op(), MockOpCode::AddOp);
}

#[test]
fn tensor_types_worklaod_mock_run_test() {
    let load = MockTensor::new(MockOpCode::ConvOp);
    let now = time::Instant::now();
    load.mock_run();
    assert_eq!(load.op(), MockOpCode::ConvOp);
    assert!(now.elapsed() >= time::Duration::from_millis(1070));
}

#[test]
fn tensor_types_workload_ops_default_test() {
    let load = MockTensor::new(MockOpCode::default());
    assert_eq!(load.op(), MockOpCode::IdentityOp);
}

#[test]
fn tensor_types_workload_ops_matmul_test() {
    let load = MockTensor::new(MockOpCode::MatmulOp);
    assert_eq!(load.op(), MockOpCode::MatmulOp);
}

#[test]
fn tensor_types_workload_ops_exp_test() {
    let load = MockTensor::new(MockOpCode::ExpOp);
    assert_eq!(load.op(), MockOpCode::ExpOp);
}

#[test]
fn tensor_types_workload_message_test() {
    let load = MockTensor::new(MockOpCode::ExpOp);
    let wlmsg = LoadfreeMessage::<MockTensor>::MockTensorMsg(load);
    assert_eq!(
        wlmsg,
        LoadfreeMessage::<MockTensor>::MockTensorMsg(MockTensor::new(MockOpCode::ExpOp))
    );
}
