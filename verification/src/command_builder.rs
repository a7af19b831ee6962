//! The helper that creates system commands from their textual names.

use vstd::prelude::*;

use crate::bindings;
use crate::typed_messages::{SystemCommand, TypedMessage};

verus! {

/// Builds system commands of the first protocol generation.
#[derive(Default)]
pub struct CommandBuilder;

impl CommandBuilder {
    pub fn new() -> (b: Self) {
        CommandBuilder
    }

    /// Builds the command `cmd` names: creating an actor takes its rank and
    /// its name, destroying takes nothing. No other name is understood.
    pub fn build(
        &self,
        cmd: &str,
        numeric_args: Option<Vec<usize>>,
        literal_args: Option<Vec<String>>,
    ) -> (r: SystemCommand)
        requires
            cmd@ == "create-actor"@ || cmd@ == "destroy-actor"@,
            cmd@ == "create-actor"@ ==> (numeric_args matches Some(ns) && ns@.len() > 0),
            cmd@ == "create-actor"@ ==> (literal_args matches Some(ls) && ls@.len() > 0),
        ensures
            cmd@ == "create-actor"@ ==> (r matches SystemCommand::CreateActor(n, s) && n
                == numeric_args->Some_0@[0] && s@ == literal_args->Some_0@[0]@),
            cmd@ == "destroy-actor"@ ==> r == SystemCommand::DestroyAllActors,
    {
        proof {
            reveal_strlit("create-actor");
            reveal_strlit("destroy-actor");
            assert("create-actor"@.len() == 12);
            assert("destroy-actor"@.len() == 13);
        }
        if bindings::str_eq(cmd, "create-actor") {
            let nums = match numeric_args {
                Some(ns) => ns,
                None => unreached(),
            };
            let liters = match literal_args {
                Some(ls) => ls,
                None => unreached(),
            };
            let name = liters[0].clone();
            SystemCommand::CreateActor(nums[0], name)
        } else if bindings::str_eq(cmd, "destroy-actor") {
            SystemCommand::DestroyAllActors
        } else {
            unreached()
        }
    }

    /// Builds the command `cmd` names and wraps it as a message.
    pub fn build_msg(
        &self,
        cmd: &str,
        numeric_args: Option<Vec<usize>>,
        literal_args: Option<Vec<String>>,
    ) -> (r: TypedMessage)
        requires
            cmd@ == "create-actor"@ || cmd@ == "destroy-actor"@,
            cmd@ == "create-actor"@ ==> (numeric_args matches Some(ns) && ns@.len() > 0),
            cmd@ == "create-actor"@ ==> (literal_args matches Some(ls) && ls@.len() > 0),
        ensures
            cmd@ == "create-actor"@ ==> (r matches TypedMessage::SystemMsg(
                SystemCommand::CreateActor(n, s),
            ) && n == numeric_args->Some_0@[0] && s@ == literal_args->Some_0@[0]@),
            cmd@ == "destroy-actor"@ ==> r == TypedMessage::<
                crate::typed_messages::Workload,
            >::SystemMsg(SystemCommand::DestroyAllActors),
    {
        TypedMessage::from(self.build(cmd, numeric_args, literal_args))
    }
}

} // verus!
