//! The stateful builder that collects one system command and wraps it as a
//! message.

use vstd::prelude::*;

use crate::typed_messages::{clone_cmd, cmd_like, SystemCommand, SystemMsg};

verus! {

/// Holds one system command under construction.
#[derive(Debug)]
pub struct SysCmdBuilder {
    pub cmd: SystemCommand,
}

impl SysCmdBuilder {
    pub fn new() -> (b: Self)
        ensures
            b.cmd == SystemCommand::DummySysCmd,
    {
        SysCmdBuilder::default()
    }

    pub fn build_with_cmd(cmd: SystemCommand) -> (b: Self)
        ensures
            b.cmd == cmd,
    {
        SysCmdBuilder { cmd }
    }

    pub fn set_cmd(&mut self, cmd: SystemCommand)
        ensures
            final(self).cmd == cmd,
    {
        self.cmd = cmd;
    }

    /// The collected command. A created actor's name is a `String`, known
    /// only by its characters, so the result matches by content.
    pub fn cmd(&self) -> (r: SystemCommand)
        ensures
            cmd_like(r, self.cmd),
    {
        clone_cmd(&self.cmd)
    }

    pub fn build_cmd(&self) -> (r: SystemCommand)
        ensures
            cmd_like(r, self.cmd),
    {
        self.cmd()
    }

    pub fn build_msg(&self) -> (r: SystemMsg)
        ensures
            cmd_like(r.cmd, self.cmd),
    {
        SystemMsg::new(self.build_cmd())
    }
}

impl Default for SysCmdBuilder {
    fn default() -> (b: Self)
        ensures
            b.cmd == SystemCommand::DummySysCmd,
    {
        SysCmdBuilder { cmd: SystemCommand::DummySysCmd }
    }
}

} // verus!
