//! The message protocol: a closed set of tagged variants covering control
//! commands, availability notices, and compute payloads with dependency
//! gates and completion signals.

use vstd::prelude::*;

use std::sync::Arc;
use std::sync::RwLock;

use crate::cost_model::OpCodeLike;
use crate::tensor_types::TensorLike;

verus! {

/// Anything that can travel through the system's mailboxes.
pub trait MessageLike {}

/// The top-level message type the supervisor multiplexes.
#[derive(Debug)]
#[verifier::reject_recursive_types(T)]
pub enum RaptorMessage<T, O> where T: TensorLike + Clone, O: OpCodeLike {
    LoadfreeMSG(LoadfreeMessage<T>),
    PayloadMSG(PayloadMessage<T, O>),
}

/// A message that carries no compute payload.
#[derive(Clone, Copy, Debug, PartialEq, Eq)]
pub enum LoadfreeMessage<T> where T: TensorLike + Clone {
    SystemMsg(SystemCommand),
    ActorMsg(ActorCommand),
    MockTensorMsg(T),
}

/// A compute payload. An operand shared with other in-flight tasks sits
/// behind a reference-counted reader/writer lock; a readiness gate is a
/// single-use signal awaited before the kernel runs; a completion notifier
/// is a single-use signal fired after the kernel returns; `dev_at` pins
/// delivery to a fixed actor index.
#[derive(Debug)]
#[verifier::reject_recursive_types(T)]
pub enum PayloadMessage<T, O> where T: TensorLike + Clone, O: OpCodeLike {
    ComputeFunctorMsg {
        op: O,
        lhs: Arc<RwLock<T>>,
        rhs: Arc<RwLock<T>>,
        respond_to: tokio::sync::oneshot::Sender<T>,
    },
    UnaryComputeFunctorMsg {
        op: O,
        inp: Arc<RwLock<T>>,
        respond_to: tokio::sync::oneshot::Sender<T>,
    },
    NonRetUnaryComputeFunctorMsg {
        op: O,
        inp: Arc<RwLock<T>>,
        out: Arc<RwLock<T>>,
        inp_ready_checker: tokio::sync::oneshot::Receiver<u8>,
        respond_to: Vec<tokio::sync::oneshot::Sender<u8>>,
        respond_id: usize,
        dev_at: Option<usize>,
    },
    NonRetBinaryComputeFunctorMsg {
        op: O,
        lhs: Arc<RwLock<T>>,
        rhs: Arc<RwLock<T>>,
        out: Arc<RwLock<T>>,
        lhs_ready_checker: tokio::sync::oneshot::Receiver<u8>,
        rhs_ready_checker: tokio::sync::oneshot::Receiver<u8>,
        respond_to: Vec<tokio::sync::oneshot::Sender<u8>>,
        respond_id: usize,
        dev_at: Option<usize>,
    },
    NonRetTenaryComputeFunctorMsg {
        op: O,
        first: Arc<RwLock<T>>,
        second: Arc<RwLock<T>>,
        third: Arc<RwLock<T>>,
        out: Arc<RwLock<T>>,
        first_ready_checker: tokio::sync::oneshot::Receiver<u8>,
        second_ready_checker: tokio::sync::oneshot::Receiver<u8>,
        third_ready_checker: tokio::sync::oneshot::Receiver<u8>,
        respond_to: Vec<tokio::sync::oneshot::Sender<u8>>,
        respond_id: usize,
        dev_at: Option<usize>,
    },
    DMAOperationMsg {
        op: O,
        inp: Arc<RwLock<T>>,
        out: Arc<RwLock<T>>,
        inp_ready_checker: tokio::sync::oneshot::Receiver<u8>,
        respond_to: Vec<tokio::sync::oneshot::Sender<u8>>,
        respond_id: usize,
        shape: Vec<usize>,
        dev_at: Option<usize>,
    },
}

impl<T, O> MessageLike for RaptorMessage<T, O> where T: TensorLike + Clone, O: OpCodeLike {

}

impl<T> MessageLike for LoadfreeMessage<T> where T: TensorLike + Clone {

}

impl<T, O> MessageLike for PayloadMessage<T, O> where T: TensorLike + Clone, O: OpCodeLike {

}

impl<T, O> PayloadMessage<T, O> where T: TensorLike + Clone, O: OpCodeLike {
    /// The fixed destination index the payload carries, if any.
    pub open spec fn spec_dev_at(&self) -> Option<usize> {
        match self {
            PayloadMessage::ComputeFunctorMsg { .. } => None,
            PayloadMessage::UnaryComputeFunctorMsg { .. } => None,
            PayloadMessage::NonRetUnaryComputeFunctorMsg { dev_at, .. } => *dev_at,
            PayloadMessage::NonRetBinaryComputeFunctorMsg { dev_at, .. } => *dev_at,
            PayloadMessage::NonRetTenaryComputeFunctorMsg { dev_at, .. } => *dev_at,
            PayloadMessage::DMAOperationMsg { dev_at, .. } => *dev_at,
        }
    }

    /// How many readiness gates the payload carries.
    pub open spec fn gate_count(&self) -> nat {
        match self {
            PayloadMessage::ComputeFunctorMsg { .. } => 0,
            PayloadMessage::UnaryComputeFunctorMsg { .. } => 0,
            PayloadMessage::NonRetUnaryComputeFunctorMsg { .. } => 1,
            PayloadMessage::NonRetBinaryComputeFunctorMsg { .. } => 2,
            PayloadMessage::NonRetTenaryComputeFunctorMsg { .. } => 3,
            PayloadMessage::DMAOperationMsg { .. } => 1,
        }
    }

    /// How many completion notifiers the payload carries.
    pub open spec fn notifier_count(&self) -> nat {
        match self {
            PayloadMessage::ComputeFunctorMsg { .. } => 1,
            PayloadMessage::UnaryComputeFunctorMsg { .. } => 1,
            PayloadMessage::NonRetUnaryComputeFunctorMsg { respond_to, .. } => respond_to@.len(),
            PayloadMessage::NonRetBinaryComputeFunctorMsg { respond_to, .. } => respond_to@.len(),
            PayloadMessage::NonRetTenaryComputeFunctorMsg { respond_to, .. } => respond_to@.len(),
            PayloadMessage::DMAOperationMsg { respond_to, .. } => respond_to@.len(),
        }
    }

    /// The fixed destination index the payload carries, if any.
    pub fn dev_at(&self) -> (r: Option<usize>)
        ensures
            r == self.spec_dev_at(),
    {
        match self {
            PayloadMessage::ComputeFunctorMsg { .. } => None,
            PayloadMessage::UnaryComputeFunctorMsg { .. } => None,
            PayloadMessage::NonRetUnaryComputeFunctorMsg { dev_at, .. } => *dev_at,
            PayloadMessage::NonRetBinaryComputeFunctorMsg { dev_at, .. } => *dev_at,
            PayloadMessage::NonRetTenaryComputeFunctorMsg { dev_at, .. } => *dev_at,
            PayloadMessage::DMAOperationMsg { dev_at, .. } => *dev_at,
        }
    }
}

impl<T, O> RaptorMessage<T, O> where T: TensorLike + Clone, O: OpCodeLike {
    /// The fixed destination index of the payload the message wraps; a
    /// message without a payload pins nothing.
    pub open spec fn spec_dev_at(&self) -> Option<usize> {
        match self {
            RaptorMessage::PayloadMSG(p) => p.spec_dev_at(),
            RaptorMessage::LoadfreeMSG(_) => None,
        }
    }
}

/// A command that only the supervisor processes.
#[derive(Clone, Copy, Debug, PartialEq, Eq, Structural)]
pub enum SystemCommand {
    HaltAll,
    HaltOn(usize),
    /// First the backend type tag, then how many actors to spawn.
    Spawn(usize, usize),
}

/// The envelope callers wrap a system command in.
#[derive(Clone, Copy, Debug, PartialEq, Eq, Structural)]
pub struct SystemMsg {
    pub cmd: SystemCommand,
}

impl SystemMsg {
    pub fn new(cmd: SystemCommand) -> (m: Self)
        ensures
            m.cmd == cmd,
    {
        SystemMsg { cmd }
    }
}

impl<T: TensorLike + Clone> From<SystemCommand> for LoadfreeMessage<T> {
    fn from(cmd: SystemCommand) -> (m: LoadfreeMessage<T>) {
        LoadfreeMessage::SystemMsg(cmd)
    }
}

impl<T: TensorLike + Clone> vstd::std_specs::convert::FromSpecImpl<SystemCommand> for LoadfreeMessage<T> {
    open spec fn obeys_from_spec() -> bool {
        true
    }

    open spec fn from_spec(cmd: SystemCommand) -> Self {
        LoadfreeMessage::SystemMsg(cmd)
    }
}

/// A notice processed by the supervisor on a worker's behalf.
#[derive(Clone, Copy, Debug, PartialEq, Eq, Structural)]
pub enum ActorCommand {
    Available(usize),
    PLACEHOLDER,
}

/// The envelope a worker wraps its notice in.
#[derive(Clone, Copy, Debug, PartialEq, Eq, Structural)]
pub struct ActorMsg {
    pub cmd: ActorCommand,
}

impl ActorMsg {
    pub fn new(cmd: ActorCommand) -> (m: Self)
        ensures
            m.cmd == cmd,
    {
        ActorMsg { cmd }
    }
}

impl<T: TensorLike + Clone> From<ActorCommand> for LoadfreeMessage<T> {
    fn from(cmd: ActorCommand) -> (m: LoadfreeMessage<T>) {
        LoadfreeMessage::ActorMsg(cmd)
    }
}

impl<T: TensorLike + Clone> vstd::std_specs::convert::FromSpecImpl<ActorCommand> for LoadfreeMessage<T> {
    open spec fn obeys_from_spec() -> bool {
        true
    }

    open spec fn from_spec(cmd: ActorCommand) -> Self {
        LoadfreeMessage::ActorMsg(cmd)
    }
}

} // verus!
