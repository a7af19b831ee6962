use raptors::cost_model::MockOpCode;
use raptors::messages::{ActorCommand, LoadfreeMessage, SystemCommand};
use raptors::tensor_types::MockTensor;

#[test]
fn build_halt_all_test() {
    let msg: LoadfreeMessage<MockTensor> = LoadfreeMessage::SystemMsg(SystemCommand::HaltAll);
    assert_eq!(msg, LoadfreeMessage::SystemMsg(SystemCommand::HaltAll));
}

#[test]
fn build_spawn_msg_test() {
    let msg: LoadfreeMessage<MockTensor> = match "mock" {
        "mock" => LoadfreeMessage::SystemMsg(SystemCommand::Spawn(0 as usize, 3)),
        "vulkan" => LoadfreeMessage::SystemMsg(SystemCommand::Spawn(1 as usize, 3)),
        _ => panic!("fail to spawn"),
    };
    assert_eq!(msg, LoadfreeMessage::SystemMsg(SystemCommand::Spawn(0, 3)));
    let msg: LoadfreeMessage<MockTensor> = match "vulkan" {
        "mock" => LoadfreeMessage::SystemMsg(SystemCommand::Spawn(0 as usize, 3)),
        "vulkan" => LoadfreeMessage::SystemMsg(SystemCommand::Spawn(1 as usize, 3)),
        _ => panic!("fail to spawn"),
    };
    assert_eq!(msg, LoadfreeMessage::SystemMsg(SystemCommand::Spawn(1, 3)));
}

#[test]
fn build_halt_msg_test() {
    let msg: LoadfreeMessage<MockTensor> = LoadfreeMessage::SystemMsg(SystemCommand::HaltOn(3));
    assert_eq!(msg, LoadfreeMessage::SystemMsg(SystemCommand::HaltOn(3)));
}

#[test]
fn build_add_op_test() {
    let msg: LoadfreeMessage<MockTensor> =
        LoadfreeMessage::MockTensorMsg(MockTensor::new(MockOpCode::AddOp));
    assert_eq!(
        msg,
        LoadfreeMessage::MockTensorMsg(MockTensor::new(MockOpCode::AddOp))
    );
}

#[test]
fn build_exp_op_test() {
    let msg: LoadfreeMessage<MockTensor> =
        LoadfreeMessage::MockTensorMsg(MockTensor::new(MockOpCode::ExpOp));
    assert_eq!(
        msg,
        LoadfreeMessage::MockTensorMsg(MockTensor::new(MockOpCode::ExpOp))
    );
}

#[test]
fn build_actor_available_msg_test() {
    let msg: LoadfreeMessage<MockTensor> =
        LoadfreeMessage::ActorMsg(ActorCommand::Available(0));
    assert_eq!(
        msg,
        LoadfreeMessage::<MockTensor>::ActorMsg(ActorCommand::Available(0))
    );
}
