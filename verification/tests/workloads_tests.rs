use raptors::typed_messages::TypedMessage;
use raptors::workloads::{OpCode, Workload};

use std::time;

#[test]
fn workloads_create_dummy_workload_test() {
    let load = Workload::new(OpCode::AddOp);
    assert_eq!(load.payload(), 11 as usize);
    assert_eq!(load.op(), OpCode::AddOp);
}

#[test]
fn workloads_worklaod_mock_run_test() {
    let load = Workload::new(OpCode::ConvOp);
    let now = time::Instant::now();
    load.mock_run();
    assert_eq!(load.op(), OpCode::ConvOp);
    assert!(now.elapsed() >= time::Duration::from_millis(1070));
}

#[test]
fn workloads_workload_ops_default_test() {
    let load = Workload::new(OpCode::default());
    assert_eq!(load.op(), OpCode::IdentityOp);
}

#[test]
fn workloads_workload_ops_matmul_test() {
    let load = Workload::new(OpCode::MatmulOp);
    assert_eq!(load.op(), OpCode::MatmulOp);
}

#[test]
fn workloads_workload_ops_exp_test() {
    let load = Workload::new(OpCode::ExpOp);
    assert_eq!(load.op(), OpCode::ExpOp);
}

#[test]
fn workloads_workload_message_test() {
    let load = Workload::new(OpCode::ExpOp);
    let wlmsg = TypedMessage::<Workload>::WorkloadMsg(load);
    assert_eq!(
        wlmsg,
        TypedMessage::<Workload>::WorkloadMsg(Workload::new(OpCode::ExpOp))
    );
}
