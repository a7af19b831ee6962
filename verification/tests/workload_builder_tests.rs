use raptors::typed_messages::{OpCode, TypedMessage, Workload};
use raptors::workload_builder::WorkloadBuilder;

#[test]
fn workload_build_test() {
    let builder = WorkloadBuilder::new();
    let workload = builder.build(Some(2), Some(OpCode::DummyOp));
    assert_eq!(workload, Workload::new(2, OpCode::DummyOp));
}

#[test]
fn workload_build_many_test() {
    let builder = WorkloadBuilder::new();
    let workloads = builder.build_many(vec![1, 1], vec![OpCode::DummyOp, OpCode::DummyOp]);
    assert_eq!(workloads[0], Workload::new(1, OpCode::DummyOp));
    assert_eq!(
        workloads,
        vec![
            Workload::new(1, OpCode::DummyOp),
            Workload::new(1, OpCode::DummyOp)
        ]
    );
}

#[test]
fn workload_builder_msg_build_test() {
    let builder = WorkloadBuilder::new();
    let msg = builder.build_msg(Some(2), Some(OpCode::AddOp));
    let workload = builder.build(Some(2), Some(OpCode::AddOp));
    assert_eq!(msg, TypedMessage::WorkloadMsg(workload));
}
