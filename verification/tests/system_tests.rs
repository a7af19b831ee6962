use raptors::actors::{Actor, ActorEvent, KernelCall, LoopTurn};
use raptors::bindings::TryRecv;
use raptors::cost_model::MockOpCode;
use raptors::executor_types::MockExecutor;
use raptors::messages::{
    ActorCommand, LoadfreeMessage, PayloadMessage, RaptorMessage, SystemCommand,
};
use raptors::system::{ActorSystem, StepAction, SystemError};
use raptors::tensor_types::MockTensor;

use std::sync::Arc;
use std::sync::RwLock;
use tokio::sync::mpsc;
use tokio::sync::oneshot;

type Msg = RaptorMessage<MockTensor, MockOpCode>;
type Sys = ActorSystem<MockTensor, MockOpCode>;
type Worker = Actor<MockExecutor, MockTensor, MockOpCode>;

fn spawn_msg(cnt: usize) -> Msg {
    RaptorMessage::LoadfreeMSG(LoadfreeMessage::SystemMsg(SystemCommand::Spawn(0, cnt)))
}

fn available_msg(idx: usize) -> Msg {
    RaptorMessage::LoadfreeMSG(LoadfreeMessage::ActorMsg(ActorCommand::Available(idx)))
}

/// A unary payload whose readiness gate is already resolved; hands back the
/// completion receiver.
fn unary_payload(dev_at: Option<usize>) -> (Msg, oneshot::Receiver<u8>) {
    let (gate_tx, gate_rx) = oneshot::channel::<u8>();
    let (done_tx, done_rx) = oneshot::channel::<u8>();
    gate_tx.send(0u8).unwrap();
    let msg = RaptorMessage::PayloadMSG(PayloadMessage::NonRetUnaryComputeFunctorMsg {
        op: MockOpCode::SinOp,
        inp: Arc::new(RwLock::new(MockTensor::new(MockOpCode::SinOp))),
        out: Arc::new(RwLock::new(MockTensor::new(MockOpCode::SinOp))),
        inp_ready_checker: gate_rx,
        respond_to: vec![done_tx],
        respond_id: 0,
        dev_at,
    });
    (msg, done_rx)
}

fn live_count(sys: &Sys) -> usize {
    sys.mails.iter().filter(|m| m.is_some()).count()
}

#[test]
fn spawn_then_notices_fill_ready_queue_and_roster() {
    let mut sys = Sys::new("spawn");
    match sys.step(spawn_msg(3)) {
        Ok(StepAction::Spawned(seeds)) => {
            assert_eq!(seeds.len(), 3);
            assert_eq!(seeds[0].id, 0);
            assert_eq!(seeds[1].id, 1);
            assert_eq!(seeds[2].id, 2);
        }
        _ => panic!("spawn must hand back the seeds"),
    }
    assert_eq!(sys.ranks(), 3);
    assert_eq!(live_count(&sys), 3);
    // a new actor becomes ready only through its own availability notice
    assert_eq!(sys.availables, Vec::<usize>::new());
    // after one notice per actor the ready queue holds exactly one entry
    // per actor, and the roster still exactly the three live channels
    for idx in 0..3 {
        match sys.step(available_msg(idx)) {
            Ok(StepAction::Done) => {}
            _ => panic!("a notice with no backlog dispatches nothing"),
        }
    }
    assert_eq!(sys.availables, vec![0, 1, 2]);
    assert_eq!(live_count(&sys), 3);
    assert_eq!(sys.delayed_tensor_types.len(), 0);
}

#[test]
fn availability_notice_enqueues_reporting_index() {
    let mut sys = Sys::new("notice");
    sys.step(spawn_msg(2)).ok().unwrap();
    assert_eq!(sys.availables, Vec::<usize>::new());
    // with an empty delay queue the notice only grows the ready queue
    match sys.step(available_msg(0)) {
        Ok(StepAction::Done) => {}
        _ => panic!("a notice with no backlog dispatches nothing"),
    }
    assert_eq!(sys.availables, vec![0]);
    assert_eq!(live_count(&sys), 2);
}

#[test]
fn backlog_lands_in_delay_queue_in_order() {
    let mut sys = Sys::new("backlog");
    sys.step(spawn_msg(2)).ok().unwrap();
    sys.step(available_msg(0)).ok().unwrap();
    sys.step(available_msg(1)).ok().unwrap();
    let (p1, _d1) = unary_payload(None);
    let (p2, _d2) = unary_payload(None);
    let (p3, _d3) = unary_payload(None);
    match sys.step(p1) {
        Ok(StepAction::Deliver { to, .. }) => assert_eq!(to, 0),
        _ => panic!("first payload goes to the oldest idle actor"),
    }
    match sys.step(p2) {
        Ok(StepAction::Deliver { to, .. }) => assert_eq!(to, 1),
        _ => panic!("second payload goes to the next idle actor"),
    }
    match sys.step(p3) {
        Ok(StepAction::Delayed) => {}
        _ => panic!("with no idle actor the payload is delayed"),
    }
    assert_eq!(sys.availables.len(), 0);
    assert_eq!(sys.delayed_tensor_types.len(), 1);
}

#[test]
fn availability_transfers_oldest_delayed_payload() {
    let mut sys = Sys::new("transfer");
    sys.step(spawn_msg(2)).ok().unwrap();
    sys.step(available_msg(0)).ok().unwrap();
    sys.step(available_msg(1)).ok().unwrap();
    let (p1, _d1) = unary_payload(None);
    let (p2, _d2) = unary_payload(None);
    let (p3, _d3) = unary_payload(None);
    sys.step(p1).ok().unwrap();
    sys.step(p2).ok().unwrap();
    sys.step(p3).ok().unwrap();
    assert_eq!(sys.delayed_tensor_types.len(), 1);
    let ready_before = sys.availables.len();
    match sys.step(available_msg(0)) {
        Ok(StepAction::Deliver { to, .. }) => assert_eq!(to, 0),
        _ => panic!("the notice must dispatch the delayed payload"),
    }
    // a transfer: the delay queue shrank by one, the ready queue did not
    // grow net
    assert_eq!(sys.delayed_tensor_types.len(), 0);
    assert_eq!(sys.availables.len(), ready_before);
}

#[test]
fn pinned_payload_overrides_ready_queue() {
    let mut sys = Sys::new("pinned");
    sys.step(spawn_msg(2)).ok().unwrap();
    sys.step(available_msg(0)).ok().unwrap();
    sys.step(available_msg(1)).ok().unwrap();
    // pinned delivery ignores the ready queue entirely
    let (p, _d) = unary_payload(Some(1));
    match sys.step(p) {
        Ok(StepAction::Deliver { to, .. }) => assert_eq!(to, 1),
        _ => panic!("a pinned payload goes to its fixed index"),
    }
    assert_eq!(sys.availables, vec![0, 1]);
    // and still delivers when the ready queue is empty
    let (q1, _e1) = unary_payload(None);
    let (q2, _e2) = unary_payload(None);
    sys.step(q1).ok().unwrap();
    sys.step(q2).ok().unwrap();
    assert_eq!(sys.availables.len(), 0);
    let (q3, _e3) = unary_payload(Some(0));
    match sys.step(q3) {
        Ok(StepAction::Deliver { to, .. }) => assert_eq!(to, 0),
        _ => panic!("a pinned payload delivers even with no idle actor"),
    }
    assert_eq!(sys.delayed_tensor_types.len(), 0);
}

#[test]
fn halt_one_tombstones_and_later_delivery_fails() {
    let mut sys = Sys::new("halt-one");
    sys.step(spawn_msg(2)).ok().unwrap();
    assert_eq!(live_count(&sys), 2);
    let halt = RaptorMessage::LoadfreeMSG(LoadfreeMessage::SystemMsg(SystemCommand::HaltOn(1)));
    match sys.step(halt) {
        Ok(StepAction::Done) => {}
        _ => panic!("halting a live actor succeeds"),
    }
    assert_eq!(live_count(&sys), 1);
    assert_eq!(sys.mails.len(), 2);
    // a later delivery attempt pinned to the halted index is refused
    let (p, _d) = unary_payload(Some(1));
    assert_eq!(sys.step(p).map(|_| ()), Err(SystemError::InvalidActorIndex));
    // as is halting it twice
    let halt_again =
        RaptorMessage::LoadfreeMSG(LoadfreeMessage::SystemMsg(SystemCommand::HaltOn(1)));
    assert_eq!(sys.step(halt_again).map(|_| ()), Err(SystemError::InvalidActorIndex));
}

#[test]
fn halt_all_leaves_queues_untouched() {
    // the delay queue survives the halt
    let mut sys = Sys::new("halt-all");
    let (p, _d) = unary_payload(None);
    sys.step(p).ok().unwrap();
    sys.step(spawn_msg(2)).ok().unwrap();
    assert_eq!(sys.delayed_tensor_types.len(), 1);
    let halt = RaptorMessage::LoadfreeMSG(LoadfreeMessage::SystemMsg(SystemCommand::HaltAll));
    match sys.step(halt) {
        Ok(StepAction::Done) => {}
        _ => panic!("halting everything succeeds"),
    }
    assert_eq!(live_count(&sys), 0);
    assert_eq!(sys.delayed_tensor_types.len(), 1);
    assert_eq!(sys.availables, Vec::<usize>::new());

    // and so does the ready queue
    let mut sys = Sys::new("halt-all-ready");
    sys.step(spawn_msg(2)).ok().unwrap();
    sys.step(available_msg(0)).ok().unwrap();
    sys.step(available_msg(1)).ok().unwrap();
    assert_eq!(sys.availables, vec![0, 1]);
    let halt = RaptorMessage::LoadfreeMSG(LoadfreeMessage::SystemMsg(SystemCommand::HaltAll));
    sys.step(halt).ok().unwrap();
    assert_eq!(live_count(&sys), 0);
    assert_eq!(sys.availables, vec![0, 1]);
}

#[test]
fn placeholder_notice_is_unsupported() {
    let mut sys = Sys::new("unsupported");
    let msg = RaptorMessage::LoadfreeMSG(LoadfreeMessage::ActorMsg(ActorCommand::PLACEHOLDER));
    assert_eq!(
        sys.step(msg).map(|_| ()),
        Err(SystemError::UnsupportedMessage)
    );
}

#[test]
fn handler_trace_orders_gates_kernel_notifiers() {
    let (back_tx, _back_rx) = mpsc::channel::<Msg>(16);
    let (_tx, rx) = mpsc::channel::<Msg>(16);
    let mut worker: Worker = Actor::new(0, rx, back_tx, 0);
    let (msg, mut done) = unary_payload(None);
    let payload = match msg {
        RaptorMessage::PayloadMSG(p) => p,
        _ => unreachable!(),
    };
    let trace = worker.fetch_and_handle_payload(payload);
    assert_eq!(
        trace,
        vec![
            ActorEvent::GateResolved(0),
            ActorEvent::KernelReturned(KernelCall::UnaryComputeV2),
            ActorEvent::NotifierFired(0)
        ]
    );
    // the completion notifier fired exactly once
    assert_eq!(done.try_recv(), Ok(0u8));
    assert!(done.try_recv().is_err());
}

#[test]
fn message_traces_name_the_backend_entry_point() {
    let (back_tx, _back_rx) = mpsc::channel::<Msg>(16);
    let (_tx, rx) = mpsc::channel::<Msg>(16);
    let mut worker: Worker = Actor::new(0, rx, back_tx, 0);
    // a simulated workload invokes the mock-compute entry point once
    let r = worker.fetch_and_handle_message(LoadfreeMessage::MockTensorMsg(MockTensor::new(
        MockOpCode::AddOp,
    )));
    assert_eq!(
        r,
        Ok(vec![ActorEvent::KernelReturned(KernelCall::MockCompute)])
    );
    // a notice touches no backend entry point
    let r = worker.fetch_and_handle_message(LoadfreeMessage::ActorMsg(ActorCommand::Available(0)));
    assert_eq!(r, Ok(vec![]));
    // a system command does not belong in a worker's mailbox
    let r = worker.fetch_and_handle_message(LoadfreeMessage::SystemMsg(SystemCommand::HaltAll));
    assert!(r.is_err());
}

#[test]
fn three_payloads_two_actors_scenario() {
    let mut sys = Sys::new("scenario");
    let (back_tx, _back_rx) = mpsc::channel::<Msg>(100);

    // Spawn(2): two workers, built from the seeds
    let seeds = match sys.step(spawn_msg(2)) {
        Ok(StepAction::Spawned(seeds)) => seeds,
        _ => panic!("spawn must hand back the seeds"),
    };
    let mut workers: Vec<Worker> = Vec::new();
    for seed in seeds {
        workers.push(Actor::new(seed.id, seed.inbox, back_tx.clone(), seed.typeid));
    }
    // each worker's startup notice, as its first empty mailbox poll emits it
    sys.step(available_msg(0)).ok().unwrap();
    sys.step(available_msg(1)).ok().unwrap();
    assert_eq!(sys.availables, vec![0, 1]);

    // submit 3 unary-compute payloads with no destination
    let mut dones = Vec::new();
    let mut delivered = 0;
    let mut delayed = 0;
    for _ in 0..3 {
        let (p, d) = unary_payload(None);
        dones.push(d);
        match sys.step(p) {
            Ok(StepAction::Deliver { msg, mailbox, .. }) => {
                assert!(mailbox.try_send(msg).is_ok());
                delivered += 1;
            }
            Ok(StepAction::Delayed) => delayed += 1,
            _ => panic!("a payload is either dispatched or delayed"),
        }
    }
    // 2 dispatch immediately, 1 is delayed
    assert_eq!(delivered, 2);
    assert_eq!(delayed, 1);

    // both workers drain their mailboxes
    let t0 = workers[0].try_handle_one().expect("worker 0 has work").unwrap();
    let t1 = workers[1].try_handle_one().expect("worker 1 has work").unwrap();
    assert_eq!(t0.len(), 3);
    assert_eq!(t1.len(), 3);

    // when an actor reports available, the delayed payload dispatches
    match sys.step(available_msg(0)) {
        Ok(StepAction::Deliver { to, msg, mailbox }) => {
            assert_eq!(to, 0);
            assert!(mailbox.try_send(msg).is_ok());
        }
        _ => panic!("the notice must dispatch the delayed payload"),
    }
    assert_eq!(sys.delayed_tensor_types.len(), 0);
    let t2 = workers[0].try_handle_one().expect("worker 0 has work again").unwrap();
    assert_eq!(
        t2,
        vec![
            ActorEvent::GateResolved(0),
            ActorEvent::KernelReturned(KernelCall::UnaryComputeV2),
            ActorEvent::NotifierFired(0)
        ]
    );

    // eventually all 3 completion notifiers fired exactly once each
    for done in dones.iter_mut() {
        assert_eq!(done.try_recv(), Ok(0u8));
        assert!(done.try_recv().is_err());
    }
}

#[test]
fn broadcast_targets_are_the_live_channels() {
    let mut sys = Sys::new("broadcast");
    let (back_tx, _back_rx) = mpsc::channel::<Msg>(16);
    let seeds = match sys.step(spawn_msg(2)) {
        Ok(StepAction::Spawned(seeds)) => seeds,
        _ => panic!("spawn must hand back the seeds"),
    };
    let mut workers: Vec<Worker> = Vec::new();
    for seed in seeds {
        workers.push(Actor::new(seed.id, seed.inbox, back_tx.clone(), seed.typeid));
    }
    let halt = RaptorMessage::LoadfreeMSG(LoadfreeMessage::SystemMsg(SystemCommand::HaltOn(1)));
    sys.step(halt).ok().unwrap();
    // only the live channel is a broadcast target, and it reaches its actor
    let targets = sys.broadcast_targets();
    assert_eq!(targets.len(), 1);
    let note = RaptorMessage::LoadfreeMSG(LoadfreeMessage::MockTensorMsg(MockTensor::new(
        MockOpCode::AddOp,
    )));
    assert!(targets[0].try_send(note).is_ok());
    let r = workers[0].try_handle_one().expect("worker 0 got the broadcast");
    assert_eq!(
        r,
        Ok(vec![ActorEvent::KernelReturned(KernelCall::MockCompute)])
    );
    // the halted actor's channel is closed: its worker sees no target
    assert!(workers[1].try_handle_one().is_none());
}

#[test]
fn poll_observation_selects_the_loop_turn() {
    let (back_tx, mut back_rx) = mpsc::channel::<Msg>(16);
    let (tx, rx) = mpsc::channel::<Msg>(16);
    let mut worker: Worker = Actor::new(7, rx, back_tx, 0);

    // a closed channel, and only a closed channel, is the halt
    match worker.loop_turn(TryRecv::Closed) {
        LoopTurn::Halted => {}
        _ => panic!("a closed channel is the halt signal"),
    }
    // a waiting message is handled silently
    match worker.loop_turn(TryRecv::Msg(available_msg(3))) {
        LoopTurn::Handled(Ok(trace)) => assert_eq!(trace, vec![]),
        _ => panic!("a waiting message is handled, not announced"),
    }
    // an empty mailbox announces Available(id) and blocks for the next
    // message; queue one up so the turn completes
    assert!(tx.try_send(available_msg(4)).is_ok());
    match worker.loop_turn(TryRecv::Empty) {
        LoopTurn::AnnouncedThenHandled { announced_id, accepted, outcome } => {
            assert_eq!(announced_id, 7);
            assert!(accepted);
            assert_eq!(outcome, Ok(vec![]));
        }
        _ => panic!("an empty mailbox announces and then handles"),
    }
    match back_rx.try_recv() {
        Ok(RaptorMessage::LoadfreeMSG(LoadfreeMessage::ActorMsg(ActorCommand::Available(i)))) => {
            assert_eq!(i, 7)
        }
        _ => panic!("the announced notice carries the worker's own index"),
    }
    // after an announcement, a closed channel is the halt
    match worker.wakeup_turn(None, true) {
        LoopTurn::AnnouncedThenHalted { announced_id, accepted } => {
            assert_eq!(announced_id, 7);
            assert!(accepted);
        }
        _ => panic!("a closed channel after the announcement is the halt"),
    }
    // the non-blocking poll: a message is handled, anything else is not
    match worker.poll_outcome(TryRecv::Msg(available_msg(5))) {
        Some(Ok(trace)) => assert_eq!(trace, vec![]),
        _ => panic!("a waiting message is handled"),
    }
    assert!(worker.poll_outcome(TryRecv::Empty).is_none());
    assert!(worker.poll_outcome(TryRecv::Closed).is_none());
}
