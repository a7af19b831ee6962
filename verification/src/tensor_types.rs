//! The mock tensor: a workload that only carries its operator code; its
//! simulated execution takes the operator's estimated cost in time.

use vstd::prelude::*;

use crate::bindings;
use crate::cost_model::{default_costs, CostModel, MockOpCode};
use crate::messages::LoadfreeMessage;

verus! {

/// Anything that can serve as a compute payload.
pub trait TensorLike {}

/// A workload carrying nothing but its operator code.
#[derive(Clone, Copy, Debug, PartialEq, Eq, Structural)]
pub struct MockTensor {
    pub op: MockOpCode,
}

impl TensorLike for MockTensor {

}

impl MockTensor {
    pub fn new(op: MockOpCode) -> (w: MockTensor)
        ensures
            w.op == op,
    {
        MockTensor { op }
    }

    /// The estimated cost of this workload under the built-in cost model.
    pub fn payload(&self) -> (p: usize)
        ensures
            p == default_costs()[self.op],
            p <= 173,
    {
        proof {
            assert(default_costs().contains_key(self.op) && default_costs()[self.op] <= 173);
        }
        CostModel::new().estimate(self)
    }

    pub fn op(&self) -> (r: MockOpCode)
        ensures
            r == self.op,
    {
        self.op
    }

    /// Emulate the execution: busy for ten milliseconds per cost unit.
    pub fn mock_run(&self) {
        let cost = self.payload();
        bindings::sleep_millis((cost * 10) as u64);
    }
}

impl Default for MockTensor {
    fn default() -> (w: Self)
        ensures
            w.op == MockOpCode::IdentityOp,
    {
        MockTensor { op: MockOpCode::IdentityOp }
    }
}

impl From<MockTensor> for LoadfreeMessage<MockTensor> {
    fn from(w: MockTensor) -> (m: LoadfreeMessage<MockTensor>) {
        LoadfreeMessage::MockTensorMsg(w)
    }
}

impl vstd::std_specs::convert::FromSpecImpl<MockTensor> for LoadfreeMessage<MockTensor> {
    open spec fn obeys_from_spec() -> bool {
        true
    }

    open spec fn from_spec(w: MockTensor) -> Self {
        LoadfreeMessage::MockTensorMsg(w)
    }
}

/// Indicates the workload to be taken.
#[derive(Clone, Copy, Debug, PartialEq, Eq, Structural)]
pub struct MockTensorMsg {
    pub workload: MockTensor,
}

impl MockTensorMsg {
    pub fn new(workload: MockTensor) -> (m: MockTensorMsg)
        ensures
            m.workload == workload,
    {
        MockTensorMsg { workload }
    }
}

} // verus!
