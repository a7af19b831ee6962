//! The first generation of the message protocol: a plain envelope over
//! string-built system commands and sized workloads. The command builders,
//! the estimator, and the polling mailbox speak this protocol.

use vstd::prelude::*;

verus! {

/// The operator codes of this generation of the protocol.
#[derive(Clone, Copy, Debug, Eq, PartialEq, Hash, Structural)]
pub enum OpCode {
    DummyOp,
    AddOp,
    ConvOp,
    ExpOp,
    MatmulOp,
    SinOp,
    SubOp,
}

/// A workload: a size and an operator code.
#[derive(Clone, Copy, Debug, PartialEq, Eq, Structural)]
pub struct Workload {
    pub payload: usize,
    pub op: OpCode,
}

impl Workload {
    pub fn new(payload: usize, op: OpCode) -> (w: Workload)
        ensures
            w.payload == payload,
            w.op == op,
    {
        Workload { payload, op }
    }

    pub fn payload(&self) -> (p: usize)
        ensures
            p == self.payload,
    {
        self.payload
    }

    pub fn op(&self) -> (r: OpCode)
        ensures
            r == self.op,
    {
        self.op
    }
}

/// The system commands of this generation.
#[derive(Clone, Debug, PartialEq, Eq)]
pub enum SystemCommand {
    DummySysCmd,
    CreateActor(usize, String),
    DestroyAllActors,
}

impl Default for SystemCommand {
    fn default() -> (r: Self)
        ensures
            r == SystemCommand::DummySysCmd,
    {
        SystemCommand::DummySysCmd
    }
}

/// Two commands carrying the same content. A created actor's name is a
/// `String`, known only by its characters, so this is the equality the
/// contracts speak.
pub open spec fn cmd_like(a: SystemCommand, b: SystemCommand) -> bool {
    match (a, b) {
        (SystemCommand::DummySysCmd, SystemCommand::DummySysCmd) => true,
        (SystemCommand::CreateActor(n1, s1), SystemCommand::CreateActor(n2, s2)) => n1 == n2 && s1@
            == s2@,
        (SystemCommand::DestroyAllActors, SystemCommand::DestroyAllActors) => true,
        _ => false,
    }
}

/// Rebuilds a command with the same content.
pub fn clone_cmd(cmd: &SystemCommand) -> (r: SystemCommand)
    ensures
        cmd_like(r, *cmd),
{
    match cmd {
        SystemCommand::DummySysCmd => SystemCommand::DummySysCmd,
        SystemCommand::CreateActor(n, s) => SystemCommand::CreateActor(*n, s.clone()),
        SystemCommand::DestroyAllActors => SystemCommand::DestroyAllActors,
    }
}

/// The envelope a command of this generation travels in.
#[derive(Clone, Debug, PartialEq, Eq)]
pub struct SystemMsg {
    pub cmd: SystemCommand,
}

impl SystemMsg {
    pub fn new(cmd: SystemCommand) -> (m: Self)
        ensures
            m.cmd == cmd,
    {
        SystemMsg { cmd }
    }
}

/// Two messages of this generation carrying the same content.
pub open spec fn msg_like(a: TypedMessage, b: TypedMessage) -> bool {
    match (a, b) {
        (TypedMessage::WorkloadMsg(w1), TypedMessage::WorkloadMsg(w2)) => w1 == w2,
        (TypedMessage::SystemMsg(c1), TypedMessage::SystemMsg(c2)) => cmd_like(c1, c2),
        (TypedMessage::ActorMsg, TypedMessage::ActorMsg) => true,
        _ => false,
    }
}

/// Rebuilds a message with the same content.
pub fn clone_msg(m: &TypedMessage) -> (r: TypedMessage)
    ensures
        msg_like(r, *m),
{
    match m {
        TypedMessage::WorkloadMsg(w) => TypedMessage::WorkloadMsg(*w),
        TypedMessage::SystemMsg(cmd) => TypedMessage::SystemMsg(clone_cmd(cmd)),
        TypedMessage::ActorMsg => TypedMessage::ActorMsg,
    }
}

/// The message envelope of this generation.
#[derive(Clone, Debug, PartialEq)]
pub enum TypedMessage<T = Workload> {
    WorkloadMsg(T),
    SystemMsg(SystemCommand),
    ActorMsg,
}

impl<T> From<SystemCommand> for TypedMessage<T> {
    fn from(cmd: SystemCommand) -> (m: TypedMessage<T>) {
        TypedMessage::SystemMsg(cmd)
    }
}

impl<T> vstd::std_specs::convert::FromSpecImpl<SystemCommand> for TypedMessage<T> {
    open spec fn obeys_from_spec() -> bool {
        true
    }

    open spec fn from_spec(cmd: SystemCommand) -> Self {
        TypedMessage::SystemMsg(cmd)
    }
}

impl From<Workload> for TypedMessage<Workload> {
    fn from(w: Workload) -> (m: TypedMessage<Workload>) {
        TypedMessage::WorkloadMsg(w)
    }
}

impl vstd::std_specs::convert::FromSpecImpl<Workload> for TypedMessage<Workload> {
    open spec fn obeys_from_spec() -> bool {
        true
    }

    open spec fn from_spec(w: Workload) -> Self {
        TypedMessage::WorkloadMsg(w)
    }
}

} // verus!
