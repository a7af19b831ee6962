use raptors::estimator::WorkloadEstimator;
use raptors::typed_messages::{OpCode, Workload};

use std::collections::HashMap;

#[test]
fn estimator_create_estimator_wtihout_model_test() {
    let est = WorkloadEstimator::new();
    let model = est.cost_model();
    assert_eq!(
        model.get_key_value(&OpCode::AddOp),
        Some((&OpCode::AddOp, &2))
    );
    assert_eq!(
        model.get_key_value(&OpCode::ConvOp),
        Some((&OpCode::ConvOp, &8))
    );
    assert_eq!(
        model.get_key_value(&OpCode::MatmulOp),
        Some((&OpCode::MatmulOp, &10))
    );
}

#[test]
fn estimator_create_estimator_with_model_test() {
    let mut model = HashMap::new();
    model.insert(OpCode::DummyOp, 4);
    model.insert(OpCode::AddOp, 2);

    let est = WorkloadEstimator::set_model(model);
    let model = est.cost_model();
    assert_eq!(
        model.get_key_value(&OpCode::AddOp),
        Some((&OpCode::AddOp, &2))
    );
    assert_eq!(
        model.get_key_value(&OpCode::DummyOp),
        Some((&OpCode::DummyOp, &4))
    );
}

#[test]
fn estimator_estimate_computation_cost_test() {
    let est = WorkloadEstimator::new();

    let load_1 = Workload::new(16, OpCode::AddOp);
    let cost_1 = est.estimate(load_1);
    assert_eq!(cost_1, 32);

    let load_2 = Workload::new(4, OpCode::DummyOp);
    let cost_2 = est.estimate(load_2);
    assert_eq!(cost_2, 16);
}

#[test]
fn estimator_update_model_test() {
    let mut model = HashMap::new();
    model.insert(OpCode::DummyOp, 4);

    let mut est = WorkloadEstimator::set_model(model);

    assert!(est.cost_model().contains_key(&OpCode::DummyOp));
    assert_eq!(
        est.cost_model().get_key_value(&OpCode::DummyOp),
        Some((&OpCode::DummyOp, &4))
    );
    est.update_model(OpCode::DummyOp, 8);
    assert_eq!(
        est.cost_model().get_key_value(&OpCode::DummyOp),
        Some((&OpCode::DummyOp, &8))
    );

    assert_eq!(est.cost_model().contains_key(&OpCode::ConvOp), false);
    est.update_model(OpCode::ConvOp, 100);
    assert!(est.cost_model().contains_key(&OpCode::ConvOp));
    assert_eq!(
        est.cost_model().get_key_value(&OpCode::ConvOp),
        Some((&OpCode::ConvOp, &100))
    );
}
