use raptors::estimator::WorkloadEstimator;
use raptors::estimator_builder::WorkloadEstimatorBuilder;
use raptors::typed_messages::OpCode;

use std::collections::HashMap;

#[test]
fn create_builder_test() {
    let builder = WorkloadEstimatorBuilder::default();

    assert_eq!(
        builder.cost_model().get_key_value(&OpCode::DummyOp),
        Some((&OpCode::DummyOp, &4))
    );
    assert_eq!(
        builder.cost_model().get_key_value(&OpCode::AddOp),
        Some((&OpCode::AddOp, &2))
    );
}

#[test]
fn set_model_test() {
    let mut model = HashMap::new();
    model.insert(OpCode::DummyOp, 40);
    model.insert(OpCode::AddOp, 20);

    let builder = WorkloadEstimatorBuilder::set_model(model.clone());

    assert_eq!(
        builder.cost_model().get_key_value(&OpCode::DummyOp),
        Some((&OpCode::DummyOp, &40))
    );
    assert_eq!(
        builder.cost_model().get_key_value(&OpCode::AddOp),
        Some((&OpCode::AddOp, &20))
    );
}

#[test]
fn cost_model_test() {
    let mut model = HashMap::new();
    model.insert(OpCode::DummyOp, 40);
    model.insert(OpCode::AddOp, 20);

    let builder = WorkloadEstimatorBuilder::set_model(model.clone());

    assert_eq!(builder.cost_model(), model);
}

#[test]
fn build_WorkloadEstimator_test() {
    let mut model = HashMap::new();
    model.insert(OpCode::DummyOp, 40);
    model.insert(OpCode::AddOp, 20);

    let builder = WorkloadEstimatorBuilder::set_model(model.clone());
    let est_from_builder = builder.build();

    let est_from_origin = WorkloadEstimator::set_model(model.clone());

    assert_eq!(est_from_builder, est_from_origin);
}
