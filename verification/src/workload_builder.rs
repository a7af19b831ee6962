//! The helper that creates sized workloads and wraps them as messages.

use vstd::prelude::*;

use crate::typed_messages::{OpCode, TypedMessage, Workload};

verus! {

/// Builds workloads of the first protocol generation.
#[derive(Default)]
pub struct WorkloadBuilder;

impl WorkloadBuilder {
    pub fn new() -> (b: Self) {
        WorkloadBuilder
    }

    /// Builds one workload; both parts must be provided.
    pub fn build(&self, payload: Option<usize>, op: Option<OpCode>) -> (w: Workload)
        requires
            payload is Some,
            op is Some,
        ensures
            w.payload == payload->Some_0,
            w.op == op->Some_0,
    {
        let p = match payload {
            Some(p) => p,
            None => unreached(),
        };
        let o = match op {
            Some(o) => o,
            None => unreached(),
        };
        Workload::new(p, o)
    }

    /// Builds one unit-sized workload per requested operator code; the size
    /// list plays no part.
    pub fn build_many(&self, payload_list: Vec<usize>, op_list: Vec<OpCode>) -> (r: Vec<Workload>)
        ensures
            r@.len() == op_list@.len(),
            forall|i: int| 0 <= i < op_list@.len() ==> (#[trigger] r@[i]) == (Workload {
                payload: 1usize,
                op: op_list@[i],
            }),
    {
        let mut r: Vec<Workload> = Vec::new();
        let mut i: usize = 0;
        while i < op_list.len()
            invariant
                i <= op_list.len(),
                r@.len() == i,
                forall|j: int| 0 <= j < i ==> (#[trigger] r@[j]) == (Workload {
                    payload: 1usize,
                    op: op_list@[j],
                }),
            decreases op_list.len() - i,
        {
            r.push(Workload::new(1, op_list[i]));
            i = i + 1;
        }
        r
    }

    /// Builds one unit-sized workload message per requested operator code.
    pub fn build_many_msg(&self, payload: Vec<usize>, op: Vec<OpCode>) -> (r: Vec<TypedMessage>)
        ensures
            r@.len() == op@.len(),
            forall|i: int| 0 <= i < op@.len() ==> (#[trigger] r@[i]) == TypedMessage::WorkloadMsg(
                Workload { payload: 1usize, op: op@[i] },
            ),
    {
        let loads = self.build_many(payload, op);
        let mut r: Vec<TypedMessage> = Vec::new();
        let mut i: usize = 0;
        while i < loads.len()
            invariant
                i <= loads.len(),
                r@.len() == i,
                forall|j: int| 0 <= j < i ==> (#[trigger] r@[j]) == TypedMessage::WorkloadMsg(
                    loads@[j],
                ),
            decreases loads.len() - i,
        {
            r.push(TypedMessage::from(loads[i]));
            i = i + 1;
        }
        r
    }

    /// Builds one workload message; both parts must be provided.
    pub fn build_msg(&self, payload: Option<usize>, op: Option<OpCode>) -> (r: TypedMessage)
        requires
            payload is Some,
            op is Some,
        ensures
            r == TypedMessage::WorkloadMsg(
                Workload { payload: payload->Some_0, op: op->Some_0 },
            ),
    {
        TypedMessage::from(self.build(payload, op))
    }
}

} // verus!
