use raptors::cost_model::MockOpCode;
use raptors::executor::{Executor, ExecutorLike, Workload};
use raptors::executor_types::ExecutorLike as BackendLike;
use raptors::executor_types::MockExecutor;

use std::sync::Arc;
use std::sync::RwLock;
use std::time;

#[test]
fn compute_workload() {
    let mut exec = Executor::new();
    let load = Workload::new(MockOpCode::AddOp);
    let now = time::Instant::now();
    exec.mock_compute(load);
    assert!(now.elapsed() >= time::Duration::from_millis(11));
}

#[test]
fn mock_exector_dummy_test() {
    assert_eq!(0, 0);
}

#[test]
fn mock_executor_unary_reads_the_operand() {
    let mut exec = MockExecutor::new();
    let operand = Arc::new(RwLock::new(Workload::new(MockOpCode::SinOp)));
    let out = BackendLike::unary_compute(&mut exec, MockOpCode::SinOp, operand);
    assert_eq!(out, Workload::new(MockOpCode::SinOp));
}
