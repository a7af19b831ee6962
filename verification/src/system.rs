//! The supervisor: owns the actor roster (index to outbound channel), the
//! FIFO ready queue of idle actor indices, and the FIFO delay queue of
//! undispatched messages. Every step is proved to follow the transitions of
//! `scheduler`. The async event loop and task spawning live outside the
//! library; each step here hands back the action to perform.

use vstd::prelude::*;

use crate::bindings;
use crate::cost_model::OpCodeLike;
use crate::messages::{ActorCommand, LoadfreeMessage, RaptorMessage, SystemCommand};
use crate::scheduler::{
    avail_decision, avail_state, halt_all_state, halt_one_ok, halt_one_state, route_decision,
    route_state, spawn_state, Decision, SchedState,
};
use crate::tensor_types::TensorLike;

verus! {

/// The static data that describes an actor system before it is built.
#[derive(Debug)]
pub struct SystemConfig {
    pub name: String,
    pub log_level: String,
    pub ranks: Option<usize>,
}

impl SystemConfig {
    pub fn new(name: &str, log_level: &str) -> (c: Self)
        ensures
            c.name@ == name@,
            c.log_level@ == log_level@,
            c.ranks is None,
    {
        SystemConfig { name: name.to_owned(), log_level: log_level.to_owned(), ranks: None }
    }

    pub fn set_ranks(&mut self, ranks: usize)
        ensures
            final(self).ranks == Some(ranks),
            final(self).name == old(self).name,
            final(self).log_level == old(self).log_level,
    {
        self.ranks = Some(ranks);
    }

    pub fn ranks(&self) -> (r: usize)
        ensures
            r == match self.ranks {
                Some(n) => n,
                None => 0usize,
            },
    {
        match self.ranks {
            Some(n) => n,
            None => 0,
        }
    }

    pub fn name(&self) -> (r: String)
        ensures
            r@ == self.name@,
    {
        self.name.clone()
    }
}

impl Default for SystemConfig {
    fn default() -> (c: Self)
        ensures
            c.name@ == Seq::<char>::empty(),
            c.log_level@ == Seq::<char>::empty(),
            c.ranks is None,
    {
        SystemConfig { name: String::new(), log_level: String::new(), ranks: None }
    }
}

/// Builds a supervisor from a configuration.
#[derive(Default)]
pub struct SystemBuilder {
    pub cfg: Option<SystemConfig>,
}

impl SystemBuilder {
    pub fn new() -> (b: Self)
        ensures
            b.cfg is None,
    {
        SystemBuilder { cfg: None }
    }

    pub fn build_with_config<T: TensorLike + Clone, O: OpCodeLike>(&mut self, config: SystemConfig)
        -> (s: ActorSystem<T, O>)
        ensures
            s.wf(),
            s.name@ == config.name@,
            s.sched() == crate::scheduler::empty_state::<RaptorMessage<T, O>>(),
            final(self).cfg == Some(config),
    {
        self.cfg = Some(config);
        let name = self.config().name();
        ActorSystem::<T, O>::new(name.as_str())
    }

    fn config(&self) -> (r: &SystemConfig)
        requires
            self.cfg is Some,
        ensures
            *r == self.cfg->Some_0,
    {
        match &self.cfg {
            Some(c) => c,
            None => unreached(),
        }
    }
}

/// A routing failure, reported to the supervisor's caller instead of
/// crashing the event loop.
#[derive(Clone, Copy, Debug, PartialEq, Eq, Structural)]
pub enum SystemError {
    /// The delivery targeted an index whose roster slot holds no live channel.
    InvalidActorIndex,
    /// The message shape is recognized but carries no implemented behavior.
    UnsupportedMessage,
}

/// What one worker needs to start: its index, the backend type tag, and the
/// receive half of its freshly created mailbox.
#[verifier::reject_recursive_types(T)]
#[verifier::reject_recursive_types(O)]
pub struct ActorSeed<T, O> where T: TensorLike + Clone, O: OpCodeLike {
    pub id: usize,
    pub typeid: usize,
    pub inbox: tokio::sync::mpsc::Receiver<RaptorMessage<T, O>>,
}

/// What the caller of a supervisor step has to perform.
#[verifier::reject_recursive_types(T)]
#[verifier::reject_recursive_types(O)]
pub enum StepAction<T, O> where T: TensorLike + Clone, O: OpCodeLike {
    /// Start one worker task per seed.
    Spawned(Vec<ActorSeed<T, O>>),
    /// Send the message to the mailbox at index `to`.
    Deliver {
        to: usize,
        msg: RaptorMessage<T, O>,
        mailbox: tokio::sync::mpsc::Sender<RaptorMessage<T, O>>,
    },
    /// No idle actor was ready: the message joined the delay queue.
    Delayed,
    /// Nothing is left to dispatch.
    Done,
}

/// Relates one routing step's result to the decision of the model: a
/// delivery hands back the message, the live index, and that index's own
/// channel out of the roster `mails`; a delayed message joined the queue; a
/// refusal is the explicit error.
pub open spec fn step_matches<T: TensorLike + Clone, O: OpCodeLike>(
    mails: Seq<Option<tokio::sync::mpsc::Sender<RaptorMessage<T, O>>>>,
    d: Decision<RaptorMessage<T, O>>,
    r: Result<StepAction<T, O>, SystemError>,
) -> bool {
    match d {
        Decision::Deliver { to, msg } => match r {
            Ok(a) => a matches StepAction::Deliver { to: t, msg: m, mailbox: mb } && t == to && m
                == msg && to < mails.len() && mails[to as int] == Some(mb),
            Err(_) => false,
        },
        Decision::Delayed => r == Ok::<StepAction<T, O>, SystemError>(StepAction::Delayed),
        Decision::Rejected => r == Err::<StepAction<T, O>, SystemError>(
            SystemError::InvalidActorIndex,
        ),
        Decision::Done => r == Ok::<StepAction<T, O>, SystemError>(StepAction::Done),
    }
}

/// The send halves of the live roster slots, in index order: the targets
/// of a broadcast.
pub open spec fn live_senders<T: TensorLike + Clone, O: OpCodeLike>(
    mails: Seq<Option<tokio::sync::mpsc::Sender<RaptorMessage<T, O>>>>,
) -> Seq<tokio::sync::mpsc::Sender<RaptorMessage<T, O>>>
    decreases mails.len(),
{
    if mails.len() == 0 {
        Seq::empty()
    } else {
        live_senders(mails.drop_last()) + match mails.last() {
            Some(tx) => seq![tx],
            None => Seq::empty(),
        }
    }
}

/// The capacity of each actor's mailbox.
pub const MAILBOX_CAPACITY: usize = 16;

/// The supervisor's state: the roster of outbound channels (tombstoned on
/// halt, so indices are never reused), the ready queue, and the delay queue.
#[verifier::reject_recursive_types(T)]
#[verifier::reject_recursive_types(O)]
pub struct ActorSystem<T, O> where T: TensorLike + Clone, O: OpCodeLike {
    pub name: String,
    pub ranks: usize,
    pub mails: Vec<Option<tokio::sync::mpsc::Sender<RaptorMessage<T, O>>>>,
    pub availables: Vec<usize>,
    pub delayed_tensor_types: Vec<RaptorMessage<T, O>>,
}

impl<T, O> ActorSystem<T, O> where T: TensorLike + Clone, O: OpCodeLike {
    /// The scheduling state this supervisor is in.
    pub open spec fn sched(&self) -> SchedState<RaptorMessage<T, O>> {
        SchedState {
            live: self.mails@.map_values(|m: Option<tokio::sync::mpsc::Sender<RaptorMessage<T, O>>>| m is Some),
            ready: self.availables@,
            delayed: self.delayed_tensor_types@,
        }
    }

    /// The index allocator never lags behind the roster.
    pub open spec fn wf(&self) -> bool {
        self.ranks == self.mails@.len()
    }

    /// A spawn request must not overflow the index allocator.
    pub open spec fn spawn_fits(&self, gmsg: RaptorMessage<T, O>) -> bool {
        match gmsg {
            RaptorMessage::LoadfreeMSG(LoadfreeMessage::SystemMsg(SystemCommand::Spawn(_, cnt))) =>
                self.ranks + cnt <= usize::MAX,
            _ => true,
        }
    }

    pub fn new(name: &str) -> (s: Self)
        ensures
            s.wf(),
            s.name@ == name@,
            s.ranks == 0,
            s.sched() == crate::scheduler::empty_state::<RaptorMessage<T, O>>(),
    {
        let s = ActorSystem {
            name: name.to_owned(),
            ranks: 0,
            mails: Vec::new(),
            availables: Vec::new(),
            delayed_tensor_types: Vec::new(),
        };
        proof {
            assert(s.sched().live =~= Seq::<bool>::empty());
        }
        s
    }

    pub fn name(&self) -> (r: String)
        ensures
            r@ == self.name@,
    {
        self.name.clone()
    }

    pub fn ranks(&self) -> (r: usize)
        ensures
            r == self.ranks,
    {
        self.ranks
    }

    /// Pops the oldest idle actor index, if any.
    pub fn poll_ready_actor(&mut self) -> (r: Option<usize>)
        ensures
            final(self).name == old(self).name,
            final(self).ranks == old(self).ranks,
            final(self).mails == old(self).mails,
            final(self).delayed_tensor_types == old(self).delayed_tensor_types,
            match r {
                None => old(self).availables@.len() == 0 && final(self).availables
                    == old(self).availables,
                Some(idx) => old(self).availables@.len() > 0 && idx == old(self).availables@[0]
                    && final(self).availables@ == old(self).availables@.drop_first(),
            },
    {
        if self.availables.is_empty() {
            None
        } else {
            let idx = self.availables.remove(0);
            proof {
                assert(self.availables@ =~= old(self).availables@.drop_first());
            }
            Some(idx)
        }
    }

    /// Spawns `cnt` actors: allocates disjoint indices, and creates each
    /// mailbox and pushes its send half into the roster. A new actor joins
    /// the ready queue through its own availability notice, once its mailbox
    /// first runs empty. Hands back the seeds the caller starts the worker
    /// tasks from.
    pub fn spawn_actors(&mut self, typeid: usize, cnt: usize) -> (seeds: Vec<ActorSeed<T, O>>)
        requires
            old(self).wf(),
            old(self).ranks + cnt <= usize::MAX,
        ensures
            final(self).wf(),
            final(self).name == old(self).name,
            final(self).ranks == old(self).ranks + cnt,
            final(self).sched() == spawn_state(old(self).sched(), cnt as nat),
            seeds@.len() == cnt,
            forall|i: int| 0 <= i < cnt ==> (#[trigger] seeds@[i]).id == old(self).ranks + i
                && seeds@[i].typeid == typeid,
    {
        let base = self.ranks;
        let mut seeds: Vec<ActorSeed<T, O>> = Vec::new();
        let mut k: usize = 0;
        while k < cnt
            invariant
                old(self).wf(),
                base == old(self).ranks,
                base + cnt <= usize::MAX,
                k <= cnt,
                self.name == old(self).name,
                self.ranks == old(self).ranks,
                self.delayed_tensor_types == old(self).delayed_tensor_types,
                self.mails@.len() == base + k,
                forall|j: int| 0 <= j < base ==> self.mails@[j] == old(self).mails@[j],
                forall|j: int| base <= j < base + k ==> (#[trigger] self.mails@[j]) is Some,
                self.availables == old(self).availables,
                seeds@.len() == k,
                forall|i: int| 0 <= i < k ==> (#[trigger] seeds@[i]).id == base + i
                    && seeds@[i].typeid == typeid,
            decreases cnt - k,
        {
            let id = base + k;
            let (tx, rx) = bindings::channel::<RaptorMessage<T, O>>(MAILBOX_CAPACITY);
            self.mails.push(Some(tx));
            seeds.push(ActorSeed { id, typeid, inbox: rx });
            k = k + 1;
        }
        self.ranks = self.ranks + cnt;
        proof {
            let post = spawn_state(old(self).sched(), cnt as nat);
            assert(self.sched().live =~= post.live);
        }
        seeds
    }

    /// Tombstones the roster entry at `index`, closing that actor's channel:
    /// closure itself is the halt signal. Halting a slot that holds no live
    /// channel is refused with an explicit error.
    pub fn halt_actor(&mut self, index: usize) -> (r: Result<(), SystemError>)
        requires
            old(self).wf(),
        ensures
            final(self).wf(),
            final(self).name == old(self).name,
            final(self).ranks == old(self).ranks,
            if halt_one_ok(old(self).sched(), index) {
                r == Ok::<(), SystemError>(()) && final(self).sched() == halt_one_state(
                    old(self).sched(),
                    index,
                )
            } else {
                r == Err::<(), SystemError>(SystemError::InvalidActorIndex) && *final(self)
                    == *old(self)
            },
    {
        if index >= self.mails.len() {
            return Err(SystemError::InvalidActorIndex);
        }
        let live = self.mails[index].is_some();
        if !live {
            return Err(SystemError::InvalidActorIndex);
        }
        self.mails[index] = None;
        proof {
            assert(self.sched().live =~= halt_one_state(old(self).sched(), index).live);
        }
        Ok(())
    }

    /// Tombstones every roster entry, closing every actor's channel. The
    /// ready and delay queues are themselves untouched.
    pub fn halt_all(&mut self) -> (r: Result<(), SystemError>)
        requires
            old(self).wf(),
        ensures
            final(self).wf(),
            final(self).name == old(self).name,
            final(self).ranks == old(self).ranks,
            r == Ok::<(), SystemError>(()),
            final(self).sched() == halt_all_state(old(self).sched()),
    {
        let n = self.mails.len();
        let mut i: usize = 0;
        while i < n
            invariant
                n == self.mails@.len(),
                i <= n,
                self.name == old(self).name,
                self.ranks == old(self).ranks,
                self.availables == old(self).availables,
                self.delayed_tensor_types == old(self).delayed_tensor_types,
                forall|j: int| 0 <= j < i ==> (#[trigger] self.mails@[j]) is None,
                forall|j: int| i <= j < n ==> self.mails@[j] == old(self).mails@[j],
            decreases n - i,
        {
            self.mails[i] = None;
            i = i + 1;
        }
        proof {
            assert(self.sched().live =~= halt_all_state(old(self).sched()).live);
        }
        Ok(())
    }

    /// Every live mailbox, in index order: a broadcast sends one copy of a
    /// message to each of these. The sends themselves are the caller's (an
    /// async send may suspend on a full mailbox).
    pub fn broadcast_targets(&self) -> (r: Vec<
        tokio::sync::mpsc::Sender<RaptorMessage<T, O>>,
    >)
        ensures
            r@ == live_senders(self.mails@),
    {
        let mut r: Vec<tokio::sync::mpsc::Sender<RaptorMessage<T, O>>> = Vec::new();
        let mut i: usize = 0;
        while i < self.mails.len()
            invariant
                i <= self.mails.len(),
                r@ == live_senders(self.mails@.take(i as int)),
            decreases self.mails.len() - i,
        {
            match &self.mails[i] {
                Some(tx) => {
                    r.push(bindings::clone_sender(tx));
                },
                None => {},
            }
            i = i + 1;
            proof {
                assert(self.mails@.take(i as int).drop_last() =~= self.mails@.take(i - 1));
                assert(r@ =~= live_senders(self.mails@.take(i as int)));
            }
        }
        proof {
            assert(self.mails@.take(self.mails@.len() as int) =~= self.mails@);
        }
        r
    }

    /// Routes one message, already stripped of its control meaning: pinned
    /// delivery overrides the ready queue; otherwise the oldest idle actor
    /// takes it, or it joins the delay queue.
    fn route(&mut self, m: RaptorMessage<T, O>, dev: Option<usize>) -> (r: Result<
        StepAction<T, O>,
        SystemError,
    >)
        requires
            old(self).wf(),
        ensures
            final(self).wf(),
            final(self).name == old(self).name,
            final(self).ranks == old(self).ranks,
            final(self).mails == old(self).mails,
            final(self).sched() == route_state(old(self).sched(), m, dev),
            step_matches(old(self).mails@, route_decision(old(self).sched(), m, dev), r),
    {
        match dev {
            Some(i) => {
                if i < self.mails.len() {
                    match &self.mails[i] {
                        Some(tx) => {
                            let mailbox = bindings::clone_sender(tx);
                            Ok(StepAction::Deliver { to: i, msg: m, mailbox })
                        },
                        None => Err(SystemError::InvalidActorIndex),
                    }
                } else {
                    Err(SystemError::InvalidActorIndex)
                }
            },
            None => {
                match self.poll_ready_actor() {
                    None => {
                        self.delayed_tensor_types.push(m);
                        Ok(StepAction::Delayed)
                    },
                    Some(idx) => {
                        if idx < self.mails.len() {
                            match &self.mails[idx] {
                                Some(tx) => {
                                    let mailbox = bindings::clone_sender(tx);
                                    Ok(StepAction::Deliver { to: idx, msg: m, mailbox })
                                },
                                None => Err(SystemError::InvalidActorIndex),
                            }
                        } else {
                            Err(SystemError::InvalidActorIndex)
                        }
                    },
                }
            },
        }
    }

    /// Enqueues the reporting index as ready and, when backlog exists,
    /// transfers the oldest delayed message to the ready queue's head.
    fn handle_available(&mut self, idx: usize) -> (r: Result<StepAction<T, O>, SystemError>)
        requires
            old(self).wf(),
        ensures
            final(self).wf(),
            final(self).name == old(self).name,
            final(self).ranks == old(self).ranks,
            final(self).mails == old(self).mails,
            final(self).sched() == avail_state(old(self).sched(), idx),
            step_matches(old(self).mails@, avail_decision(old(self).sched(), idx), r),
    {
        self.availables.push(idx);
        if self.delayed_tensor_types.is_empty() {
            return Ok(StepAction::Done);
        }
        let head = match self.poll_ready_actor() {
            Some(h) => h,
            None => unreached(),
        };
        proof {
            assert(self.availables@ =~= old(self).availables@.push(idx).drop_first());
        }
        if head < self.mails.len() {
            match &self.mails[head] {
                Some(tx) => {
                    let mailbox = bindings::clone_sender(tx);
                    let wkl = self.delayed_tensor_types.remove(0);
                    proof {
                        assert(self.delayed_tensor_types@
                            =~= old(self).delayed_tensor_types@.drop_first());
                    }
                    Ok(StepAction::Deliver { to: head, msg: wkl, mailbox })
                },
                None => Err(SystemError::InvalidActorIndex),
            }
        } else {
            Err(SystemError::InvalidActorIndex)
        }
    }

    /// One turn of the supervisor's event loop: consumes one message and
    /// hands back the action to perform. Control commands change the roster;
    /// an availability notice may transfer backlog; everything else is
    /// routed by availability, overridden by a pinned destination.
    pub fn step(&mut self, gmsg: RaptorMessage<T, O>) -> (r: Result<StepAction<T, O>, SystemError>)
        requires
            old(self).wf(),
            old(self).spawn_fits(gmsg),
        ensures
            final(self).wf(),
            final(self).name == old(self).name,
            match gmsg {
                RaptorMessage::LoadfreeMSG(LoadfreeMessage::SystemMsg(cmd)) => match cmd {
                    SystemCommand::Spawn(typeid, cnt) => {
                        &&& final(self).sched() == spawn_state(old(self).sched(), cnt as nat)
                        &&& final(self).ranks == old(self).ranks + cnt
                        &&& match r {
                            Ok(a) => match a {
                                StepAction::Spawned(seeds) => seeds@.len() == cnt && forall|i: int|
                                    0 <= i < cnt ==> (#[trigger] seeds@[i]).id == old(self).ranks
                                        + i && seeds@[i].typeid == typeid,
                                _ => false,
                            },
                            Err(_) => false,
                        }
                    },
                    SystemCommand::HaltOn(idx) => {
                        if halt_one_ok(old(self).sched(), idx) {
                            &&& final(self).sched() == halt_one_state(old(self).sched(), idx)
                            &&& r == Ok::<StepAction<T, O>, SystemError>(StepAction::Done)
                        } else {
                            &&& *final(self) == *old(self)
                            &&& r == Err::<StepAction<T, O>, SystemError>(
                                SystemError::InvalidActorIndex,
                            )
                        }
                    },
                    SystemCommand::HaltAll => {
                        &&& final(self).sched() == halt_all_state(old(self).sched())
                        &&& r == Ok::<StepAction<T, O>, SystemError>(StepAction::Done)
                    },
                },
                RaptorMessage::LoadfreeMSG(LoadfreeMessage::ActorMsg(am)) => match am {
                    ActorCommand::Available(idx) => {
                        &&& final(self).sched() == avail_state(old(self).sched(), idx)
                        &&& step_matches(
                            old(self).mails@,
                            avail_decision(old(self).sched(), idx),
                            r,
                        )
                    },
                    ActorCommand::PLACEHOLDER => {
                        &&& *final(self) == *old(self)
                        &&& r == Err::<StepAction<T, O>, SystemError>(
                            SystemError::UnsupportedMessage,
                        )
                    },
                },
                _ => {
                    &&& final(self).sched() == route_state(
                        old(self).sched(),
                        gmsg,
                        gmsg.spec_dev_at(),
                    )
                    &&& step_matches(
                        old(self).mails@,
                        route_decision(old(self).sched(), gmsg, gmsg.spec_dev_at()),
                        r,
                    )
                },
            },
    {
        match gmsg {
            RaptorMessage::LoadfreeMSG(lf) => match lf {
                LoadfreeMessage::SystemMsg(cmd) => match cmd {
                    SystemCommand::Spawn(typeid, cnt) => {
                        let seeds = self.spawn_actors(typeid, cnt);
                        Ok(StepAction::Spawned(seeds))
                    },
                    SystemCommand::HaltOn(idx) => match self.halt_actor(idx) {
                        Ok(_) => Ok(StepAction::Done),
                        Err(e) => Err(e),
                    },
                    SystemCommand::HaltAll => match self.halt_all() {
                        Ok(_) => Ok(StepAction::Done),
                        Err(e) => Err(e),
                    },
                },
                LoadfreeMessage::ActorMsg(am) => match am {
                    ActorCommand::Available(idx) => self.handle_available(idx),
                    ActorCommand::PLACEHOLDER => Err(SystemError::UnsupportedMessage),
                },
                LoadfreeMessage::MockTensorMsg(t) => {
                    self.route(RaptorMessage::LoadfreeMSG(LoadfreeMessage::MockTensorMsg(t)), None)
                },
            },
            RaptorMessage::PayloadMSG(p) => {
                let dev = p.dev_at();
                self.route(RaptorMessage::PayloadMSG(p), dev)
            },
        }
    }
}

} // verus!
