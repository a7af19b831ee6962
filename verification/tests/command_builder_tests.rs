use raptors::command_builder::CommandBuilder;
use raptors::typed_messages::{SystemCommand, TypedMessage};

#[test]
fn command_builder_command_build_test() {
    let builder = CommandBuilder::new();
    let cmd = builder.build(
        "create-actor",
        Some(vec![1]),
        Some(vec!["Raptor".to_owned()]),
    );
    assert_eq!(cmd, SystemCommand::CreateActor(1, "Raptor".to_owned()));
}

#[test]
fn command_builder_msg_build_test() {
    let builder = CommandBuilder::new();
    let cmd = builder.build(
        "create-actor",
        Some(vec![1]),
        Some(vec!["Raptor".to_owned()]),
    );
    let msg = builder.build_msg(
        "create-actor",
        Some(vec![1]),
        Some(vec!["Raptor".to_owned()]),
    );
    assert_eq!(msg, TypedMessage::SystemMsg(cmd));
}

#[test]
fn command_builder_destroy_build_test() {
    let builder = CommandBuilder::new();
    let cmd = builder.build("destroy-actor", None, None);
    assert_eq!(cmd, SystemCommand::DestroyAllActors);
}
