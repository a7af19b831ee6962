//! The worker actor: owns one inbound channel and one compute-backend
//! instance, executes whatever message its mailbox yields, announces its
//! idleness, and terminates when its channel closes. Handling a message
//! yields an event trace naming the backend entry point invoked; a payload's
//! trace is proved to resolve every readiness gate before the kernel runs
//! and to fire every completion notifier exactly once after the kernel
//! returns.

use vstd::prelude::*;

use crate::bindings;
use crate::cost_model::OpCodeLike;
use crate::executor_types::ExecutorLike;
use crate::messages::{ActorCommand, LoadfreeMessage, PayloadMessage, RaptorMessage};
use crate::tensor_types::TensorLike;

verus! {

/// The backend entry point a handled message invoked.
#[derive(Clone, Copy, Debug, PartialEq, Eq, Structural)]
pub enum KernelCall {
    MockCompute,
    UnaryCompute,
    UnaryComputeV2,
    BinaryCompute,
    BinaryComputeV2,
    TenaryComputeV2,
    DmaOperation,
}

/// One entry of the trace a message handling leaves behind, in the order
/// the effects happened.
#[derive(Clone, Copy, Debug, PartialEq, Eq, Structural)]
pub enum ActorEvent {
    /// The readiness gate with this position resolved.
    GateResolved(usize),
    /// The named kernel invocation returned.
    KernelReturned(KernelCall),
    /// The completion notifier with this position fired.
    NotifierFired(usize),
}

/// Which backend entry point each payload variant selects.
pub open spec fn kernel_of<T, O>(msg: PayloadMessage<T, O>) -> KernelCall where
    T: TensorLike + Clone,
    O: OpCodeLike,
 {
    match msg {
        PayloadMessage::ComputeFunctorMsg { .. } => KernelCall::BinaryCompute,
        PayloadMessage::UnaryComputeFunctorMsg { .. } => KernelCall::UnaryCompute,
        PayloadMessage::NonRetUnaryComputeFunctorMsg { .. } => KernelCall::UnaryComputeV2,
        PayloadMessage::NonRetBinaryComputeFunctorMsg { .. } => KernelCall::BinaryComputeV2,
        PayloadMessage::NonRetTenaryComputeFunctorMsg { .. } => KernelCall::TenaryComputeV2,
        PayloadMessage::DMAOperationMsg { .. } => KernelCall::DmaOperation,
    }
}

/// The trace that handling a payload with `gates` readiness gates and
/// `notifiers` completion notifiers leaves: every gate resolves, then the
/// selected kernel returns, then every notifier fires, in position order.
pub open spec fn payload_trace(gates: nat, kernel: KernelCall, notifiers: nat) -> Seq<ActorEvent> {
    Seq::new(gates, |i: int| ActorEvent::GateResolved(i as usize)) + seq![
        ActorEvent::KernelReturned(kernel),
    ] + Seq::new(notifiers, |i: int| ActorEvent::NotifierFired(i as usize))
}

/// What handling one message yields, for each message shape: a payload's
/// full gate/kernel/notifier trace, a simulated workload's single
/// mock-compute invocation, nothing for a notice, and an error for a shape
/// that does not belong in a worker's mailbox.
pub open spec fn handle_outcome<U, O>(
    msg: RaptorMessage<U, O>,
    r: Result<Vec<ActorEvent>, String>,
) -> bool where U: TensorLike + Clone, O: OpCodeLike {
    match msg {
        RaptorMessage::PayloadMSG(p) => r matches Ok(t) && t@ == payload_trace(
            p.gate_count(),
            kernel_of(p),
            p.notifier_count(),
        ),
        RaptorMessage::LoadfreeMSG(l) => match l {
            LoadfreeMessage::SystemMsg(_) => r is Err,
            LoadfreeMessage::MockTensorMsg(_) => r matches Ok(t) && t@ == seq![
                ActorEvent::KernelReturned(KernelCall::MockCompute),
            ],
            LoadfreeMessage::ActorMsg(_) => r matches Ok(t) && t@ == Seq::<ActorEvent>::empty(),
        },
    }
}

/// In the trace of any dispatched payload, every readiness gate resolves
/// strictly before the kernel invocation returns, every completion notifier
/// fires strictly after it, and no event — in particular no notifier firing
/// — happens twice.
pub proof fn lemma_notifiers_fire_once_after_kernel(gates: nat, kernel: KernelCall, notifiers: nat)
    requires
        gates <= usize::MAX,
        notifiers <= usize::MAX,
    ensures
        payload_trace(gates, kernel, notifiers).len() == gates + 1 + notifiers,
        forall|i: int| 0 <= i < gates ==> (#[trigger] payload_trace(gates, kernel, notifiers)[i])
            == ActorEvent::GateResolved(i as usize),
        payload_trace(gates, kernel, notifiers)[gates as int] == ActorEvent::KernelReturned(kernel),
        forall|k: int| 0 <= k < notifiers ==> (#[trigger] payload_trace(gates, kernel, notifiers)[
            gates + 1 + k
        ]) == ActorEvent::NotifierFired(k as usize),
        forall|j1: int, j2: int|
            0 <= j1 < j2 < payload_trace(gates, kernel, notifiers).len() ==> (#[trigger]
            payload_trace(gates, kernel, notifiers)[j1]) != (#[trigger] payload_trace(
                gates,
                kernel,
                notifiers,
            )[j2]),
{
    let t = payload_trace(gates, kernel, notifiers);
    assert forall|j1: int, j2: int| 0 <= j1 < j2 < t.len() implies t[j1] != t[j2] by {
        if j2 < gates {
            assert(t[j1] == ActorEvent::GateResolved(j1 as usize));
            assert(t[j2] == ActorEvent::GateResolved(j2 as usize));
        } else if j2 == gates {
            assert(t[j1] == ActorEvent::GateResolved(j1 as usize));
            assert(t[j2] == ActorEvent::KernelReturned(kernel));
        } else if j1 < gates {
            assert(t[j1] == ActorEvent::GateResolved(j1 as usize));
            assert(t[j2] == ActorEvent::NotifierFired((j2 - gates - 1) as usize));
        } else if j1 == gates {
            assert(t[j2] == ActorEvent::NotifierFired((j2 - gates - 1) as usize));
        } else {
            assert(t[j1] == ActorEvent::NotifierFired((j1 - gates - 1) as usize));
            assert(t[j2] == ActorEvent::NotifierFired((j2 - gates - 1) as usize));
        }
    }
}

/// What one turn of the worker's receive/dispatch loop did.
pub enum LoopTurn {
    /// A backlog message was waiting and was handled silently, with this
    /// outcome.
    Handled(Result<Vec<ActorEvent>, String>),
    /// The mailbox was empty: `Available(announced_id)` went to the
    /// supervisor (`accepted` tells whether its channel took the notice),
    /// the turn blocked, and the next message was handled with this outcome.
    AnnouncedThenHandled {
        announced_id: usize,
        accepted: bool,
        outcome: Result<Vec<ActorEvent>, String>,
    },
    /// The mailbox was empty: availability was announced, and then the
    /// channel closed — the halt signal.
    AnnouncedThenHalted { announced_id: usize, accepted: bool },
    /// The channel was already closed: the halt signal.
    Halted,
}

/// An isolated worker: one inbound channel, the supervisor's address to
/// report availability to, and one owned compute backend.
#[derive(Debug)]
#[verifier::reject_recursive_types(U)]
#[verifier::reject_recursive_types(O)]
pub struct Actor<T, U, O> where
    T: ExecutorLike<TensorType = U, OpCodeType = O>,
    U: TensorLike + Clone,
    O: OpCodeLike,
 {
    pub id: usize,
    pub uuid: uuid::Uuid,
    pub receiver: tokio::sync::mpsc::Receiver<RaptorMessage<U, O>>,
    pub respond_to: tokio::sync::mpsc::Sender<RaptorMessage<U, O>>,
    pub executor: T,
}

impl<T, U, O> Actor<T, U, O> where
    T: ExecutorLike<TensorType = U, OpCodeType = O>,
    U: TensorLike + Clone,
    O: OpCodeLike,
 {
    /// Builds the worker around the given channel ends and a freshly
    /// initialized backend of the kind the type tag names.
    pub fn new(
        id: usize,
        receiver: tokio::sync::mpsc::Receiver<RaptorMessage<U, O>>,
        respond_to: tokio::sync::mpsc::Sender<RaptorMessage<U, O>>,
        typeid: usize,
    ) -> (a: Self)
        ensures
            a.id == id,
            a.receiver == receiver,
            a.respond_to == respond_to,
    {
        let new_uuid = bindings::fresh_uuid();
        let mut exec = T::new_with_typeid(typeid);
        exec.init();
        Actor { id, receiver, uuid: new_uuid, respond_to, executor: exec }
    }

    pub fn id(&self) -> (r: usize)
        ensures
            r == self.id,
    {
        self.id
    }

    pub fn uuid(&self) -> (r: uuid::Uuid)
        ensures
            r == self.uuid,
    {
        self.uuid
    }

    /// Executes one message, leaving the trace `handle_outcome` describes.
    pub fn fetch_and_handle(&mut self, msg: RaptorMessage<U, O>) -> (r: Result<
        Vec<ActorEvent>,
        String,
    >)
        ensures
            final(self).id == old(self).id,
            final(self).uuid == old(self).uuid,
            final(self).receiver == old(self).receiver,
            final(self).respond_to == old(self).respond_to,
            handle_outcome(msg, r),
    {
        match msg {
            RaptorMessage::LoadfreeMSG(m) => self.fetch_and_handle_message(m),
            RaptorMessage::PayloadMSG(m) => Ok(self.fetch_and_handle_payload(m)),
        }
    }

    /// Handles one payload: awaits each readiness gate, invokes the kernel
    /// the variant selects on the carried operands, then fires every
    /// completion notifier — proved by the trace it returns.
    pub fn fetch_and_handle_payload(&mut self, msg: PayloadMessage<U, O>) -> (trace: Vec<
        ActorEvent,
    >)
        ensures
            final(self).id == old(self).id,
            final(self).uuid == old(self).uuid,
            final(self).receiver == old(self).receiver,
            final(self).respond_to == old(self).respond_to,
            trace@ == payload_trace(msg.gate_count(), kernel_of(msg), msg.notifier_count()),
    {
        let mut trace: Vec<ActorEvent> = Vec::new();
        match msg {
            PayloadMessage::NonRetTenaryComputeFunctorMsg {
                op,
                first,
                second,
                third,
                out,
                first_ready_checker,
                second_ready_checker,
                third_ready_checker,
                respond_to,
                ..
            } => {
                let _ = bindings::oneshot_blocking_recv(first_ready_checker);
                trace.push(ActorEvent::GateResolved(0));
                let _ = bindings::oneshot_blocking_recv(second_ready_checker);
                trace.push(ActorEvent::GateResolved(1));
                let _ = bindings::oneshot_blocking_recv(third_ready_checker);
                trace.push(ActorEvent::GateResolved(2));
                let _ = self.on_tenary_compute_v2(op, first, second, third, out);
                trace.push(ActorEvent::KernelReturned(KernelCall::TenaryComputeV2));
                let ghost n = respond_to@.len();
                fire_notifiers(&mut trace, respond_to);
                proof {
                    assert(trace@ =~= payload_trace(3, KernelCall::TenaryComputeV2, n));
                }
            },
            PayloadMessage::NonRetBinaryComputeFunctorMsg {
                op,
                lhs,
                rhs,
                out,
                lhs_ready_checker,
                rhs_ready_checker,
                respond_to,
                ..
            } => {
                let _ = bindings::oneshot_blocking_recv(lhs_ready_checker);
                trace.push(ActorEvent::GateResolved(0));
                let _ = bindings::oneshot_blocking_recv(rhs_ready_checker);
                trace.push(ActorEvent::GateResolved(1));
                let _ = self.on_binary_compute_v2(op, lhs, rhs, out);
                trace.push(ActorEvent::KernelReturned(KernelCall::BinaryComputeV2));
                let ghost n = respond_to@.len();
                fire_notifiers(&mut trace, respond_to);
                proof {
                    assert(trace@ =~= payload_trace(2, KernelCall::BinaryComputeV2, n));
                }
            },
            PayloadMessage::NonRetUnaryComputeFunctorMsg {
                op,
                inp,
                out,
                inp_ready_checker,
                respond_to,
                ..
            } => {
                let _ = bindings::oneshot_blocking_recv(inp_ready_checker);
                trace.push(ActorEvent::GateResolved(0));
                let _ = self.on_unary_compute_v2(op, inp, out);
                trace.push(ActorEvent::KernelReturned(KernelCall::UnaryComputeV2));
                let ghost n = respond_to@.len();
                fire_notifiers(&mut trace, respond_to);
                proof {
                    assert(trace@ =~= payload_trace(1, KernelCall::UnaryComputeV2, n));
                }
            },
            PayloadMessage::DMAOperationMsg {
                op,
                inp,
                out,
                inp_ready_checker,
                respond_to,
                shape,
                ..
            } => {
                let _ = bindings::oneshot_blocking_recv(inp_ready_checker);
                trace.push(ActorEvent::GateResolved(0));
                let _ = self.on_dma_operation(op, inp, out, shape);
                trace.push(ActorEvent::KernelReturned(KernelCall::DmaOperation));
                let ghost n = respond_to@.len();
                fire_notifiers(&mut trace, respond_to);
                proof {
                    assert(trace@ =~= payload_trace(1, KernelCall::DmaOperation, n));
                }
            },
            PayloadMessage::UnaryComputeFunctorMsg { op, inp, respond_to } => {
                let outs = match self.on_unary_compute(op, inp) {
                    Ok(t) => t,
                    Err(_) => unreached(),
                };
                trace.push(ActorEvent::KernelReturned(KernelCall::UnaryCompute));
                let _ = bindings::oneshot_send(respond_to, outs);
                trace.push(ActorEvent::NotifierFired(0));
                proof {
                    assert(trace@ =~= payload_trace(0, KernelCall::UnaryCompute, 1));
                }
            },
            PayloadMessage::ComputeFunctorMsg { op, lhs, rhs, respond_to } => {
                let outs = match self.on_binary_compute(op, lhs, rhs) {
                    Ok(t) => t,
                    Err(_) => unreached(),
                };
                trace.push(ActorEvent::KernelReturned(KernelCall::BinaryCompute));
                let _ = bindings::oneshot_send(respond_to, outs);
                trace.push(ActorEvent::NotifierFired(0));
                proof {
                    assert(trace@ =~= payload_trace(0, KernelCall::BinaryCompute, 1));
                }
            },
        }
        trace
    }

    /// Handles one loadfree message: a workload is simulated on the backend
    /// (the trace names the one invocation), a notice is acknowledged with
    /// no backend call, and a system command does not belong in a worker's
    /// mailbox.
    pub fn fetch_and_handle_message(&mut self, msg: LoadfreeMessage<U>) -> (r: Result<
        Vec<ActorEvent>,
        String,
    >)
        ensures
            final(self).id == old(self).id,
            final(self).uuid == old(self).uuid,
            final(self).receiver == old(self).receiver,
            final(self).respond_to == old(self).respond_to,
            match msg {
                LoadfreeMessage::SystemMsg(_) => r is Err,
                LoadfreeMessage::MockTensorMsg(_) => r matches Ok(t) && t@ == seq![
                    ActorEvent::KernelReturned(KernelCall::MockCompute),
                ],
                LoadfreeMessage::ActorMsg(_) => r matches Ok(t) && t@ == Seq::<
                    ActorEvent,
                >::empty(),
            },
    {
        match msg {
            LoadfreeMessage::MockTensorMsg(wkl) => {
                let _ = self.on_simulate(wkl);
                let mut trace: Vec<ActorEvent> = Vec::new();
                trace.push(ActorEvent::KernelReturned(KernelCall::MockCompute));
                proof {
                    assert(trace@ =~= seq![ActorEvent::KernelReturned(KernelCall::MockCompute)]);
                }
                Ok(trace)
            },
            LoadfreeMessage::ActorMsg(_) => Ok(Vec::new()),
            LoadfreeMessage::SystemMsg(_) => Err("unsupported message for an actor".to_owned()),
        }
    }

    /// Tries the mailbox once: handles a waiting message and reports its
    /// outcome — the trace of some received message — or reports an empty or
    /// closed mailbox without blocking. The decision the poll observation
    /// selects is `poll_outcome`'s contract.
    pub fn try_handle_one(&mut self) -> (r: Option<Result<Vec<ActorEvent>, String>>)
        ensures
            final(self).id == old(self).id,
            final(self).uuid == old(self).uuid,
            final(self).respond_to == old(self).respond_to,
            r matches Some(outcome) ==> exists|m: RaptorMessage<U, O>| handle_outcome(m, outcome),
    {
        let polled = bindings::try_recv(&mut self.receiver);
        self.poll_outcome(polled)
    }

    /// What one non-blocking mailbox poll yields, decided by the
    /// observation: a waiting message is handled, leaving its trace; an
    /// empty mailbox and a closed channel both leave nothing to do here —
    /// `run_step`'s turn tells them apart.
    pub fn poll_outcome(&mut self, polled: bindings::TryRecv<RaptorMessage<U, O>>) -> (r: Option<
        Result<Vec<ActorEvent>, String>,
    >)
        ensures
            final(self).id == old(self).id,
            final(self).uuid == old(self).uuid,
            final(self).respond_to == old(self).respond_to,
            match polled {
                bindings::TryRecv::Msg(m) => r matches Some(outcome) && handle_outcome(m, outcome),
                bindings::TryRecv::Empty => r is None,
                bindings::TryRecv::Closed => r is None,
            },
    {
        match polled {
            bindings::TryRecv::Msg(m) => {
                let ghost gm = m;
                let outcome = self.fetch_and_handle(m);
                proof {
                    assert(handle_outcome(gm, outcome));
                }
                Some(outcome)
            },
            bindings::TryRecv::Empty => None,
            bindings::TryRecv::Closed => None,
        }
    }

    /// One turn of the receive/dispatch loop: a waiting message is handled
    /// silently — back-to-back backlog never announces availability; an
    /// empty mailbox makes the worker announce `Available(self.id)` to the
    /// supervisor and block for the next message; a closed channel is the
    /// halt signal, and the only source of a halt turn. The turn each poll
    /// observation selects is `loop_turn`'s contract.
    pub fn run_step(&mut self) -> (t: LoopTurn)
        ensures
            final(self).id == old(self).id,
            final(self).uuid == old(self).uuid,
            final(self).respond_to == old(self).respond_to,
            match t {
                LoopTurn::Handled(outcome) => exists|m: RaptorMessage<U, O>| handle_outcome(
                    m,
                    outcome,
                ),
                LoopTurn::AnnouncedThenHandled { announced_id, accepted: _, outcome } =>
                    announced_id == old(self).id && exists|m: RaptorMessage<U, O>| handle_outcome(
                        m,
                        outcome,
                    ),
                LoopTurn::AnnouncedThenHalted { announced_id, accepted: _ } => announced_id == old(
                    self,
                ).id,
                LoopTurn::Halted => true,
            },
    {
        let polled = bindings::try_recv(&mut self.receiver);
        self.loop_turn(polled)
    }

    /// The loop turn one poll observation selects: a waiting message is
    /// handled in place; a closed channel is the halt, and nothing else is;
    /// an empty mailbox announces `Available(self.id)` and blocks for the
    /// next message, whose own observation `wakeup_turn` decides.
    pub fn loop_turn(&mut self, polled: bindings::TryRecv<RaptorMessage<U, O>>) -> (t: LoopTurn)
        ensures
            final(self).id == old(self).id,
            final(self).uuid == old(self).uuid,
            final(self).respond_to == old(self).respond_to,
            match polled {
                bindings::TryRecv::Msg(m) => t matches LoopTurn::Handled(outcome)
                    && handle_outcome(m, outcome),
                bindings::TryRecv::Closed => t == LoopTurn::Halted,
                bindings::TryRecv::Empty => (t matches LoopTurn::AnnouncedThenHandled {
                    announced_id,
                    accepted: _,
                    outcome,
                } && announced_id == old(self).id && (exists|m: RaptorMessage<U, O>|
                    handle_outcome(m, outcome))) || (t matches LoopTurn::AnnouncedThenHalted {
                    announced_id,
                    accepted: _,
                } && announced_id == old(self).id),
            },
    {
        match polled {
            bindings::TryRecv::Msg(m) => {
                let ghost gm = m;
                let outcome = self.fetch_and_handle(m);
                proof {
                    assert(handle_outcome(gm, outcome));
                }
                LoopTurn::Handled(outcome)
            },
            bindings::TryRecv::Empty => {
                let announced_id = self.id;
                let note = RaptorMessage::LoadfreeMSG(
                    LoadfreeMessage::ActorMsg(ActorCommand::Available(announced_id)),
                );
                let accepted = bindings::try_send(&self.respond_to, note);
                let got = bindings::blocking_recv(&mut self.receiver);
                self.wakeup_turn(got, accepted)
            },
            bindings::TryRecv::Closed => LoopTurn::Halted,
        }
    }

    /// The loop turn the blocking receive after an announcement selects: a
    /// message is handled, leaving its trace; a closed channel is the halt.
    /// Either way the turn records that `Available(self.id)` was the notice
    /// announced, and whether the supervisor's channel accepted it.
    pub fn wakeup_turn(&mut self, got: Option<RaptorMessage<U, O>>, accepted: bool) -> (t:
        LoopTurn)
        ensures
            final(self).id == old(self).id,
            final(self).uuid == old(self).uuid,
            final(self).respond_to == old(self).respond_to,
            match got {
                Some(m) => t matches LoopTurn::AnnouncedThenHandled {
                    announced_id,
                    accepted: a,
                    outcome,
                } && announced_id == old(self).id && a == accepted && handle_outcome(m, outcome),
                None => t == (LoopTurn::AnnouncedThenHalted {
                    announced_id: old(self).id,
                    accepted,
                }),
            },
    {
        let announced_id = self.id;
        match got {
            Some(m) => {
                let ghost gm = m;
                let outcome = self.fetch_and_handle(m);
                proof {
                    assert(handle_outcome(gm, outcome));
                }
                LoopTurn::AnnouncedThenHandled { announced_id, accepted, outcome }
            },
            None => LoopTurn::AnnouncedThenHalted { announced_id, accepted },
        }
    }

    fn on_simulate(&mut self, workload: U) -> (r: Result<(), String>)
        ensures
            final(self).id == old(self).id,
            final(self).uuid == old(self).uuid,
            final(self).receiver == old(self).receiver,
            final(self).respond_to == old(self).respond_to,
            r is Ok,
    {
        self.executor.mock_compute(workload);
        Ok(())
    }

    fn on_unary_compute(
        &mut self,
        op: O,
        operand: std::sync::Arc<std::sync::RwLock<U>>,
    ) -> (r: Result<U, String>)
        ensures
            final(self).id == old(self).id,
            final(self).uuid == old(self).uuid,
            final(self).receiver == old(self).receiver,
            final(self).respond_to == old(self).respond_to,
            r is Ok,
    {
        let outs = self.executor.unary_compute(op, operand);
        Ok(outs)
    }

    fn on_unary_compute_v2(
        &mut self,
        op: O,
        operand: std::sync::Arc<std::sync::RwLock<U>>,
        result: std::sync::Arc<std::sync::RwLock<U>>,
    ) -> (r: Result<(), String>)
        ensures
            final(self).id == old(self).id,
            final(self).uuid == old(self).uuid,
            final(self).receiver == old(self).receiver,
            final(self).respond_to == old(self).respond_to,
            r is Ok,
    {
        self.executor.unary_compute_v2(op, operand, result);
        Ok(())
    }

    fn on_binary_compute(
        &mut self,
        op: O,
        lhs: std::sync::Arc<std::sync::RwLock<U>>,
        rhs: std::sync::Arc<std::sync::RwLock<U>>,
    ) -> (r: Result<U, String>)
        ensures
            final(self).id == old(self).id,
            final(self).uuid == old(self).uuid,
            final(self).receiver == old(self).receiver,
            final(self).respond_to == old(self).respond_to,
            r is Ok,
    {
        let outs = self.executor.binary_compute(op, lhs, rhs);
        Ok(outs)
    }

    fn on_binary_compute_v2(
        &mut self,
        op: O,
        lhs: std::sync::Arc<std::sync::RwLock<U>>,
        rhs: std::sync::Arc<std::sync::RwLock<U>>,
        out: std::sync::Arc<std::sync::RwLock<U>>,
    ) -> (r: Result<(), String>)
        ensures
            final(self).id == old(self).id,
            final(self).uuid == old(self).uuid,
            final(self).receiver == old(self).receiver,
            final(self).respond_to == old(self).respond_to,
            r is Ok,
    {
        self.executor.binary_compute_v2(op, lhs, rhs, out);
        Ok(())
    }

    fn on_tenary_compute_v2(
        &mut self,
        op: O,
        first: std::sync::Arc<std::sync::RwLock<U>>,
        second: std::sync::Arc<std::sync::RwLock<U>>,
        third: std::sync::Arc<std::sync::RwLock<U>>,
        out: std::sync::Arc<std::sync::RwLock<U>>,
    ) -> (r: Result<(), String>)
        ensures
            final(self).id == old(self).id,
            final(self).uuid == old(self).uuid,
            final(self).receiver == old(self).receiver,
            final(self).respond_to == old(self).respond_to,
            r is Ok,
    {
        self.executor.tenary_compute_v2(op, first, second, third, out);
        Ok(())
    }

    fn on_dma_operation(
        &mut self,
        op: O,
        operand: std::sync::Arc<std::sync::RwLock<U>>,
        result: std::sync::Arc<std::sync::RwLock<U>>,
        shape: Vec<usize>,
    ) -> (r: Result<(), String>)
        ensures
            final(self).id == old(self).id,
            final(self).uuid == old(self).uuid,
            final(self).receiver == old(self).receiver,
            final(self).respond_to == old(self).respond_to,
            r is Ok,
    {
        self.executor.dma_operation(op, operand, result, shape);
        Ok(())
    }
}

/// Fires every completion notifier, in position order, recording each.
fn fire_notifiers(trace: &mut Vec<ActorEvent>, notifiers: Vec<tokio::sync::oneshot::Sender<u8>>)
    ensures
        final(trace)@ == old(trace)@ + Seq::new(
            notifiers@.len(),
            |i: int| ActorEvent::NotifierFired(i as usize),
        ),
{
    let ghost orig = notifiers@;
    let total = notifiers.len();
    let mut rest = notifiers;
    let mut i: usize = 0;
    while i < total
        invariant
            total == orig.len(),
            i <= total,
            rest@ == orig.skip(i as int),
            trace@ == old(trace)@ + Seq::new(i as nat, |j: int| ActorEvent::NotifierFired(j as usize)),
        decreases total - i,
    {
        let s = rest.remove(0);
        let _ = bindings::oneshot_send(s, 0u8);
        trace.push(ActorEvent::NotifierFired(i));
        i = i + 1;
        proof {
            assert(rest@ =~= orig.skip(i as int));
            assert(trace@ =~= old(trace)@ + Seq::new(
                i as nat,
                |j: int| ActorEvent::NotifierFired(j as usize),
            ));
        }
    }
}

} // verus!
