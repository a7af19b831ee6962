//! The workload of the current protocol generation: an operator code whose
//! simulated execution takes the operator's built-in cost in time.

use vstd::prelude::*;

use crate::bindings;
use crate::typed_messages::TypedMessage;

verus! {

/// The operator codes this workload generation understands.
#[derive(Clone, Copy, Debug, Eq, PartialEq, Hash, Structural)]
pub enum OpCode {
    IdentityOp,
    AddOp,
    ConvOp,
    ExpOp,
    MatmulOp,
    SinOp,
    SubOp,
}

impl Default for OpCode {
    fn default() -> (r: Self)
        ensures
            r == OpCode::IdentityOp,
    {
        OpCode::IdentityOp
    }
}

/// The built-in cost of each operator.
pub open spec fn workload_cost(op: OpCode) -> usize {
    match op {
        OpCode::IdentityOp => 2usize,
        OpCode::AddOp => 11usize,
        OpCode::ConvOp => 107usize,
        OpCode::ExpOp => 173usize,
        OpCode::MatmulOp => 57usize,
        OpCode::SinOp => 127usize,
        OpCode::SubOp => 17usize,
    }
}

/// A workload carrying nothing but its operator code.
#[derive(Clone, Copy, Debug, PartialEq, Eq, Structural)]
pub struct Workload {
    pub op: OpCode,
}

impl Workload {
    pub fn new(op: OpCode) -> (w: Workload)
        ensures
            w.op == op,
    {
        Workload { op }
    }

    /// The workload's cost under the built-in cost model.
    pub fn payload(&self) -> (p: usize)
        ensures
            p == workload_cost(self.op),
            p <= 173,
    {
        match self.op {
            OpCode::IdentityOp => 2,
            OpCode::AddOp => 11,
            OpCode::ConvOp => 107,
            OpCode::ExpOp => 173,
            OpCode::MatmulOp => 57,
            OpCode::SinOp => 127,
            OpCode::SubOp => 17,
        }
    }

    pub fn op(&self) -> (r: OpCode)
        ensures
            r == self.op,
    {
        self.op
    }

    /// Emulate the execution: busy for ten milliseconds per cost unit.
    pub fn mock_run(&self) {
        let cost = self.payload();
        bindings::sleep_millis((cost * 10) as u64);
    }
}

impl From<Workload> for TypedMessage<Workload> {
    fn from(w: Workload) -> (m: TypedMessage<Workload>) {
        TypedMessage::WorkloadMsg(w)
    }
}

impl vstd::std_specs::convert::FromSpecImpl<Workload> for TypedMessage<Workload> {
    open spec fn obeys_from_spec() -> bool {
        true
    }

    open spec fn from_spec(w: Workload) -> Self {
        TypedMessage::WorkloadMsg(w)
    }
}

/// Indicates the workload to be taken.
#[derive(Clone, Copy, Debug, PartialEq, Eq, Structural)]
pub struct WorkloadMsg {
    pub workload: Workload,
}

impl WorkloadMsg {
    pub fn new(workload: Workload) -> (m: WorkloadMsg)
        ensures
            m.workload == workload,
    {
        WorkloadMsg { workload }
    }
}

} // verus!
