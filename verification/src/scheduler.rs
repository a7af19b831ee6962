//! The mathematical model of the supervisor's scheduling state and of its
//! transitions, and the laws the scheduling discipline obeys. The supervisor
//! in `system` proves that each of its steps follows these transitions.

use vstd::prelude::*;

verus! {

/// The supervisor's scheduling state, abstracted: which roster slots hold a
/// live channel, the FIFO ready queue of idle actor indices, and the FIFO
/// delay queue of undispatched messages.
pub struct SchedState<M> {
    pub live: Seq<bool>,
    pub ready: Seq<usize>,
    pub delayed: Seq<M>,
}

/// What the supervisor decides to do with one message.
pub enum Decision<M> {
    /// Send the message to the mailbox at index `to`.
    Deliver { to: usize, msg: M },
    /// No idle actor was ready: the message joined the delay queue.
    Delayed,
    /// The delivery targeted an index with no live channel and was refused.
    Rejected,
    /// Nothing is left to dispatch.
    Done,
}

/// A state with no actors, no idle indices, and no backlog.
pub open spec fn empty_state<M>() -> SchedState<M> {
    SchedState { live: Seq::empty(), ready: Seq::empty(), delayed: Seq::empty() }
}

/// Index `i` names a roster slot holding a live channel.
pub open spec fn alive<M>(s: SchedState<M>, i: usize) -> bool {
    i < s.live.len() && s.live[i as int]
}

/// How many live channels the roster holds.
pub open spec fn live_count(live: Seq<bool>) -> nat
    decreases live.len(),
{
    if live.len() == 0 {
        0
    } else {
        live_count(live.drop_last()) + if live.last() {
            1nat
        } else {
            0nat
        }
    }
}

/// Spawning `cnt` actors: the roster grows by `cnt` live slots; both queues
/// are untouched. A new actor joins the ready queue only through its own
/// availability notice, once its mailbox first runs empty — counting it
/// ready at spawn time as well would enqueue every index twice.
pub open spec fn spawn_state<M>(s: SchedState<M>, cnt: nat) -> SchedState<M> {
    SchedState {
        live: s.live + Seq::new(cnt, |i: int| true),
        ready: s.ready,
        delayed: s.delayed,
    }
}

/// Halting one actor is in order exactly when its slot holds a live channel.
pub open spec fn halt_one_ok<M>(s: SchedState<M>, i: usize) -> bool {
    alive(s, i)
}

/// Halting one actor tombstones its slot; both queues are untouched.
pub open spec fn halt_one_state<M>(s: SchedState<M>, i: usize) -> SchedState<M> {
    SchedState { live: s.live.update(i as int, false), ready: s.ready, delayed: s.delayed }
}

/// Halting all actors tombstones every slot; both queues are untouched.
pub open spec fn halt_all_state<M>(s: SchedState<M>) -> SchedState<M> {
    SchedState {
        live: Seq::new(s.live.len(), |i: int| false),
        ready: s.ready,
        delayed: s.delayed,
    }
}

/// Routing one message: a pinned message leaves the queues untouched
/// whether it is delivered or refused; an unpinned one consumes the ready
/// queue's head when there is one, and joins the delay queue otherwise.
pub open spec fn route_state<M>(s: SchedState<M>, m: M, dev: Option<usize>) -> SchedState<M> {
    match dev {
        Some(_) => s,
        None => {
            if s.ready.len() == 0 {
                SchedState { live: s.live, ready: s.ready, delayed: s.delayed.push(m) }
            } else {
                SchedState { live: s.live, ready: s.ready.drop_first(), delayed: s.delayed }
            }
        },
    }
}

/// What routing one message decides: a pinned message goes to its fixed
/// index if that slot is live, and is refused otherwise — the ready queue
/// plays no part. An unpinned one goes to the oldest idle index when that
/// slot is live, is refused when it is not, and is delayed when no actor
/// is idle.
pub open spec fn route_decision<M>(s: SchedState<M>, m: M, dev: Option<usize>) -> Decision<M> {
    match dev {
        Some(i) => if alive(s, i) {
            Decision::Deliver { to: i, msg: m }
        } else {
            Decision::Rejected
        },
        None => if s.ready.len() == 0 {
            Decision::Delayed
        } else if alive(s, s.ready[0]) {
            Decision::Deliver { to: s.ready[0], msg: m }
        } else {
            Decision::Rejected
        },
    }
}

/// An availability notice: the index joins the back of the ready queue;
/// when the delay queue is non-empty the ready queue's head is popped again
/// at once and, if its slot is live, the oldest delayed message leaves the
/// delay queue for it. A dead head is consumed and refused, and the delayed
/// message stays the oldest.
pub open spec fn avail_state<M>(s: SchedState<M>, idx: usize) -> SchedState<M> {
    let pushed = s.ready.push(idx);
    if s.delayed.len() == 0 {
        SchedState { live: s.live, ready: pushed, delayed: s.delayed }
    } else if alive(s, pushed[0]) {
        SchedState { live: s.live, ready: pushed.drop_first(), delayed: s.delayed.drop_first() }
    } else {
        SchedState { live: s.live, ready: pushed.drop_first(), delayed: s.delayed }
    }
}

/// What an availability notice decides (see `avail_state`).
pub open spec fn avail_decision<M>(s: SchedState<M>, idx: usize) -> Decision<M> {
    let pushed = s.ready.push(idx);
    if s.delayed.len() == 0 {
        Decision::Done
    } else if alive(s, pushed[0]) {
        Decision::Deliver { to: pushed[0], msg: s.delayed[0] }
    } else {
        Decision::Rejected
    }
}

/// Submitting a sequence of unpinned messages, one routing step each.
pub open spec fn submit_state<M>(s: SchedState<M>, msgs: Seq<M>) -> SchedState<M>
    decreases msgs.len(),
{
    if msgs.len() == 0 {
        s
    } else {
        submit_state(route_state(s, msgs[0], None), msgs.drop_first())
    }
}

/// The decisions that submitting a sequence of unpinned messages draws,
/// in submission order.
pub open spec fn submit_decisions<M>(s: SchedState<M>, msgs: Seq<M>) -> Seq<Decision<M>>
    decreases msgs.len(),
{
    if msgs.len() == 0 {
        Seq::empty()
    } else {
        seq![route_decision(s, msgs[0], None)] + submit_decisions(
            route_state(s, msgs[0], None),
            msgs.drop_first(),
        )
    }
}

// ---------------------------------------------------------------------------
// helper lemmas about live_count
// ---------------------------------------------------------------------------

/// A run of live slots counts its length.
pub proof fn lemma_live_count_all_true(n: nat)
    ensures
        live_count(Seq::new(n, |i: int| true)) == n,
    decreases n,
{
    if n > 0 {
        assert(Seq::new(n, |i: int| true).drop_last() =~= Seq::new((n - 1) as nat, |i: int| true));
        lemma_live_count_all_true((n - 1) as nat);
    }
}

/// A run of tombstoned slots counts nothing.
pub proof fn lemma_live_count_all_false(n: nat)
    ensures
        live_count(Seq::new(n, |i: int| false)) == 0,
    decreases n,
{
    if n > 0 {
        assert(Seq::new(n, |i: int| false).drop_last() =~= Seq::new((n - 1) as nat, |i: int| false));
        lemma_live_count_all_false((n - 1) as nat);
    }
}

/// Tombstoning one live slot lowers the live count by exactly one.
pub proof fn lemma_live_count_update_false(s: Seq<bool>, i: int)
    requires
        0 <= i < s.len(),
        s[i],
    ensures
        live_count(s.update(i, false)) == live_count(s) - 1,
    decreases s.len(),
{
    let t = s.update(i, false);
    if i == s.len() - 1 {
        assert(t.drop_last() =~= s.drop_last());
    } else {
        assert(t.drop_last() =~= s.drop_last().update(i, false));
        lemma_live_count_update_false(s.drop_last(), i);
    }
}

// ---------------------------------------------------------------------------
// the laws of the scheduling discipline
// ---------------------------------------------------------------------------

/// After `Spawn(n)` on a fresh supervisor and one availability notice from
/// each of the `n` new actors — under any interleaving of the notices — the
/// roster holds exactly `n` live channels and the ready queue holds exactly
/// `n` entries, the reporting indices in arrival order.
pub proof fn lemma_spawn_fills<M>(n: nat, idxs: Seq<usize>)
    requires
        idxs.len() == n,
    ensures
        live_count(spawn_state(empty_state::<M>(), n).live) == n,
        apply_notices(spawn_state(empty_state::<M>(), n), idxs).live == spawn_state(
            empty_state::<M>(),
            n,
        ).live,
        apply_notices(spawn_state(empty_state::<M>(), n), idxs).ready == idxs,
        apply_notices(spawn_state(empty_state::<M>(), n), idxs).delayed.len() == 0,
{
    let s = spawn_state(empty_state::<M>(), n);
    assert(s.live =~= Seq::new(n, |i: int| true));
    lemma_live_count_all_true(n);
    lemma_notices_fill(s, idxs);
    assert(s.ready + idxs =~= idxs);
}

/// Applying a sequence of availability notices, one transition each.
pub open spec fn apply_notices<M>(s: SchedState<M>, idxs: Seq<usize>) -> SchedState<M>
    decreases idxs.len(),
{
    if idxs.len() == 0 {
        s
    } else {
        apply_notices(avail_state(s, idxs[0]), idxs.drop_first())
    }
}

/// Availability notices never touch the roster.
pub proof fn lemma_notices_keep_roster<M>(s: SchedState<M>, idxs: Seq<usize>)
    ensures
        apply_notices(s, idxs).live == s.live,
    decreases idxs.len(),
{
    if idxs.len() > 0 {
        lemma_notices_keep_roster(avail_state(s, idxs[0]), idxs.drop_first());
    }
}

/// With no backlog, availability notices only append the reporting indices
/// to the ready queue, in arrival order.
pub proof fn lemma_notices_fill<M>(s: SchedState<M>, idxs: Seq<usize>)
    requires
        s.delayed.len() == 0,
    ensures
        apply_notices(s, idxs).ready == s.ready + idxs,
        apply_notices(s, idxs).delayed == s.delayed,
        apply_notices(s, idxs).live == s.live,
    decreases idxs.len(),
{
    if idxs.len() == 0 {
        assert(s.ready + idxs =~= s.ready);
    } else {
        let s1 = avail_state(s, idxs[0]);
        lemma_notices_fill(s1, idxs.drop_first());
        assert(s1.ready + idxs.drop_first() =~= s.ready + idxs);
    }
}

/// A notice that finds the delay queue empty grows the ready queue by
/// exactly one entry — the reporting index, at the back — and moves nothing
/// else.
pub proof fn lemma_notice_grows_ready<M>(s: SchedState<M>, idx: usize)
    requires
        s.delayed.len() == 0,
    ensures
        avail_state(s, idx).ready == s.ready.push(idx),
        avail_state(s, idx).delayed == s.delayed,
        avail_state(s, idx).live == s.live,
        avail_decision(s, idx) == Decision::<M>::Done,
{
}

/// Submitting messages while `k` actors are ready dispatches at most `k` of
/// them immediately — the first `min(k, n)`, to the ready indices in FIFO
/// order — and the remainder land in the delay queue in submission order.
/// Requires every ready index to name a live channel, as the running system
/// maintains.
pub proof fn lemma_submit_backlog<M>(s: SchedState<M>, msgs: Seq<M>)
    requires
        forall|j: int| 0 <= j < s.ready.len() ==> alive(s, #[trigger] s.ready[j]),
    ensures
        submit_decisions(s, msgs).len() == msgs.len(),
        forall|j: int| 0 <= j < msgs.len() ==> #[trigger] submit_decisions(s, msgs)[j] == (
        if j < s.ready.len() {
            (Decision::Deliver { to: s.ready[j], msg: msgs[j] })
        } else {
            Decision::<M>::Delayed
        }),
        submit_state(s, msgs).live == s.live,
        msgs.len() <= s.ready.len() ==> submit_state(s, msgs).ready == s.ready.skip(
            msgs.len() as int,
        ) && submit_state(s, msgs).delayed == s.delayed,
        msgs.len() > s.ready.len() ==> submit_state(s, msgs).ready.len() == 0 && submit_state(
            s,
            msgs,
        ).delayed == s.delayed + msgs.skip(s.ready.len() as int),
    decreases msgs.len(),
{
    if msgs.len() == 0 {
        assert(msgs.len() <= s.ready.len());
        assert(s.ready.skip(0) =~= s.ready);
    } else {
        let s1 = route_state(s, msgs[0], None);
        assert forall|j: int| 0 <= j < s1.ready.len() implies alive(s1, #[trigger] s1.ready[j]) by {
            if s.ready.len() > 0 {
                assert(s1.ready[j] == s.ready[j + 1]);
            }
        }
        lemma_submit_backlog(s1, msgs.drop_first());
        let ds = submit_decisions(s, msgs);
        let ds1 = submit_decisions(s1, msgs.drop_first());
        assert forall|j: int| 0 <= j < msgs.len() implies #[trigger] ds[j] == (
        if j < s.ready.len() {
            Decision::Deliver { to: s.ready[j], msg: msgs[j] }
        } else {
            Decision::<M>::Delayed
        }) by {
            if j > 0 {
                assert(ds[j] == ds1[j - 1]);
                assert(msgs.drop_first()[j - 1] == msgs[j]);
                if s.ready.len() > 0 {
                    assert(j - 1 < s1.ready.len() ==> s1.ready[j - 1] == s.ready[j]);
                }
            }
        }
        if s.ready.len() == 0 {
            assert(s1.delayed == s.delayed.push(msgs[0]));
            assert(s.delayed.push(msgs[0]) + msgs.drop_first().skip(0) =~= s.delayed + msgs.skip(
                0,
            ));
            assert(msgs.drop_first().skip(0) =~= msgs.drop_first());
        } else {
            if msgs.len() <= s.ready.len() {
                assert(s1.ready.skip(msgs.len() - 1) =~= s.ready.skip(msgs.len() as int));
            } else {
                assert(s1.delayed + msgs.drop_first().skip(s1.ready.len() as int) =~= s.delayed
                    + msgs.skip(s.ready.len() as int));
            }
        }
    }
}

/// When an actor reports availability while the delay queue is non-empty,
/// the oldest delayed message is dispatched and the delay queue shrinks by
/// exactly one, while the ready queue does not grow net: a transfer, not
/// two independent events. Requires the head of the ready queue after the
/// push to name a live channel, as the running system maintains.
pub proof fn lemma_available_transfers<M>(s: SchedState<M>, idx: usize)
    requires
        s.delayed.len() > 0,
        alive(s, s.ready.push(idx)[0]),
    ensures
        avail_decision(s, idx) == (Decision::Deliver {
            to: s.ready.push(idx)[0],
            msg: s.delayed[0],
        }),
        avail_state(s, idx).delayed == s.delayed.drop_first(),
        avail_state(s, idx).delayed.len() == s.delayed.len() - 1,
        avail_state(s, idx).ready.len() == s.ready.len(),
        avail_state(s, idx).live == s.live,
{
}

/// A message carrying a fixed destination index is always delivered there,
/// regardless of the ready queue's state — even when the ready queue is
/// empty — and neither queue moves.
pub proof fn lemma_pinned_overrides<M>(s: SchedState<M>, m: M, i: usize)
    requires
        alive(s, i),
    ensures
        route_decision(s, m, Some(i)) == (Decision::Deliver { to: i, msg: m }),
        route_state(s, m, Some(i)) == s,
{
}

/// Halting one live actor removes exactly one roster entry — the live count
/// drops by exactly one, the queues are untouched — and any later delivery
/// attempt pinned to that index is refused with an explicit error.
pub proof fn lemma_halt_one<M>(s: SchedState<M>, i: usize, m: M)
    requires
        halt_one_ok(s, i),
    ensures
        live_count(halt_one_state(s, i).live) == live_count(s.live) - 1,
        halt_one_state(s, i).ready == s.ready,
        halt_one_state(s, i).delayed == s.delayed,
        route_decision(halt_one_state(s, i), m, Some(i)) == Decision::<M>::Rejected,
{
    lemma_live_count_update_false(s.live, i as int);
}

/// Halting all actors empties the roster of live channels while the ready
/// and delay queues are themselves untouched; only subsequent delivery
/// attempts observe the effect, as refusals.
pub proof fn lemma_halt_all<M>(s: SchedState<M>, m: M, i: usize)
    ensures
        live_count(halt_all_state(s).live) == 0,
        halt_all_state(s).ready == s.ready,
        halt_all_state(s).delayed == s.delayed,
        route_decision(halt_all_state(s), m, Some(i)) == Decision::<M>::Rejected,
{
    lemma_live_count_all_false(s.live.len());
    assert(halt_all_state(s).live =~= Seq::new(s.live.len(), |j: int| false));
}

} // verus!
