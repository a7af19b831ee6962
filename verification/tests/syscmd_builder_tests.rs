use raptors::syscmd_builder::SysCmdBuilder;
use raptors::typed_messages::{SystemCommand, SystemMsg};

#[test]
fn create_builder() {
    let builder = SysCmdBuilder::new();
    assert_eq!(builder.cmd(), SystemCommand::default());

    let builder = SysCmdBuilder::build_with_cmd(SystemCommand::DestroyAllActors);
    assert_eq!(builder.cmd(), SystemCommand::DestroyAllActors);
}

#[test]
fn set_cmd_test() {
    let mut builder = SysCmdBuilder::new();
    assert_eq!(builder.cmd(), SystemCommand::DummySysCmd);

    builder.set_cmd(SystemCommand::CreateActor(1, "actor".to_owned()));
    assert_eq!(
        builder.cmd(),
        SystemCommand::CreateActor(1, "actor".to_owned())
    );
}

#[test]
fn build_cmd_test() {
    let builder = SysCmdBuilder::build_with_cmd(SystemCommand::DestroyAllActors);

    assert_eq!(builder.build_cmd(), SystemCommand::DestroyAllActors);
}

#[test]
fn build_msg_test() {
    let builder = SysCmdBuilder::build_with_cmd(SystemCommand::DestroyAllActors);

    assert_eq!(
        builder.build_msg(),
        SystemMsg::new(SystemCommand::DestroyAllActors)
    );
}
