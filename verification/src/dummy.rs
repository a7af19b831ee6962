//! The smallest shape of the system: a workload that only carries its size,
//! and a synchronous actor that executes one workload per call.

use vstd::prelude::*;

use crate::bindings;

verus! {

/// A dummy workload: executing it just takes `payload` milliseconds.
pub struct DummyWorkload {
    pub payload: usize,
}

impl DummyWorkload {
    pub fn new(payload: usize) -> (w: DummyWorkload)
        ensures
            w.payload == payload,
    {
        DummyWorkload { payload }
    }

    pub fn payload(&self) -> (p: usize)
        ensures
            p == self.payload,
    {
        self.payload
    }

    /// Emulate the execution: busy for `payload` milliseconds.
    pub fn mock_run(&self) {
        bindings::sleep_millis(self.payload as u64);
    }
}

/// A worker that executes whatever workload it receives, identified by a
/// plain index.
pub struct Actor {
    pub id: usize,
}

impl Actor {
    pub fn new(id: usize) -> (a: Actor)
        ensures
            a.id == id,
    {
        Actor { id }
    }

    pub fn id(&self) -> (r: usize)
        ensures
            r == self.id,
    {
        self.id
    }

    pub fn receive(&self, msg: DummyWorkload) {
        self.on_compute(msg);
    }

    fn on_compute(&self, workload: DummyWorkload) {
        workload.mock_run();
    }
}

} // verus!
