use raptors::system_command_builder::SystemCmdBuilder;
use raptors::typed_messages::{SystemCommand, TypedMessage};

#[test]
fn system_command_builder_command_build_test() {
    let builder = SystemCmdBuilder::new();
    let cmd = builder.build(
        "create-actor",
        Some(vec![1]),
        Some(vec!["Raptor".to_owned()]),
    );
    assert_eq!(cmd, SystemCommand::CreateActor(1, "Raptor".to_owned()));
}

#[test]
fn system_command_builder_msg_build_test() {
    let builder = SystemCmdBuilder::new();
    let cmd = builder.build(
        "create-actor",
        Some(vec![1]),
        Some(vec!["Raptor".to_owned()]),
    );
    let msg = builder.build_msg(
        "create-actor",
        Some(vec![1]),
        Some(vec!["Raptor".to_owned()]),
    );
    assert_eq!(msg, TypedMessage::SystemMsg(cmd));
}

#[test]
fn macro_build_msg_test() {
    let destroy_cmd_macro: TypedMessage =
        TypedMessage::SystemMsg(SystemCommand::DestroyAllActors);
    assert_eq!(destroy_cmd_macro, SystemCommand::DestroyAllActors.into());

    let dummy_cmd_macro: TypedMessage = TypedMessage::SystemMsg(SystemCommand::DummySysCmd);
    assert_eq!(dummy_cmd_macro, SystemCommand::DummySysCmd.into());
}
