//! The drain-and-dispatch cycle of the runtime core.

use vstd::prelude::*;

use crate::action::{action_weight, follow_up_seq, is_traced, spec_follow_up, spec_traced, Action};
use crate::home::{spec_dispatch, Home};

verus! {

/// The failure taxonomy of a run.
///
/// Startup and queue failures abort a run immediately; a join failure
/// surfaces while shutting down; a terminal failure is fatal to the task
/// it strikes and surfaces through that task's join.
#[derive(Debug, Clone, Copy, PartialEq, Eq, Structural)]
pub enum RunError {
    /// Model construction or initialization failed.
    StartupFailure,
    /// A send or receive hit a closed action queue.
    QueueFailure,
    /// A background task terminated abnormally.
    TaskJoinFailure,
    /// Raw-mode handling or a frame draw failed.
    TerminalFailure,
}

impl RunError {
    /// A short description of the failure.
    pub fn message(&self) -> (r: &'static str)
        ensures
            *self == RunError::StartupFailure ==> r@ == "startup failure"@,
            *self == RunError::QueueFailure ==> r@ == "action queue closed"@,
            *self == RunError::TaskJoinFailure ==> r@ == "background task failed"@,
            *self == RunError::TerminalFailure ==> r@ == "terminal failure"@,
    {
        match self {
            RunError::StartupFailure => "startup failure",
            RunError::QueueFailure => "action queue closed",
            RunError::TaskJoinFailure => "background task failed",
            RunError::TerminalFailure => "terminal failure",
        }
    }
}

/// How much queue work a whole queue stands for; the measure that shrinks
/// with every dispatch of the drain cycle.
pub open spec fn queue_weight(q: Seq<Action>) -> nat
    decreases q.len(),
{
    if q.len() == 0 {
        0
    } else {
        action_weight(q.first()) + queue_weight(q.drop_first())
    }
}

/// Queue weight distributes over concatenation.
pub proof fn lemma_queue_weight_concat(s: Seq<Action>, t: Seq<Action>)
    ensures
        queue_weight(s + t) == queue_weight(s) + queue_weight(t),
    decreases s.len(),
{
    if s.len() == 0 {
        assert(s + t =~= t);
        assert(queue_weight(s) == 0);
    } else {
        assert((s + t).first() == s.first());
        assert((s + t).drop_first() =~= s.drop_first() + t);
        lemma_queue_weight_concat(s.drop_first(), t);
        assert(queue_weight(s + t) == action_weight((s + t).first()) + queue_weight(
            (s + t).drop_first(),
        ));
        assert(queue_weight(s) == action_weight(s.first()) + queue_weight(s.drop_first()));
    }
}

/// A deferred action carries one unit less weight than the action that
/// scheduled it, because it never schedules further work.
pub proof fn lemma_follow_up_weight(a: Action)
    ensures
        queue_weight(follow_up_seq(a)) == action_weight(a) - 1,
{
    match spec_follow_up(a) {
        Some(f) => {
            assert(queue_weight(seq![f]) == action_weight(f) + queue_weight(
                seq![f].drop_first(),
            ));
            assert(seq![f].drop_first() =~= Seq::<Action>::empty());
            assert(queue_weight(Seq::<Action>::empty()) == 0);
            assert(action_weight(f) == 1);
        },
        None => {
            assert(queue_weight(Seq::<Action>::empty()) == 0);
        },
    }
}

/// The drain-and-dispatch cycle on a model and a queue: dispatch the front
/// action, append the deferred action it schedules, and repeat until the
/// queue is empty. The whole batch is dispatched — a dispatched `Quit`
/// sets `should_quit`, which gates the caller's next cycle, never the
/// batch that set it.
///
/// Returns the final model and the sequence of actions passed to dispatch,
/// in order.
pub open spec fn spec_drain(m: Home, q: Seq<Action>) -> (Home, Seq<Action>)
    decreases queue_weight(q),
    via spec_drain_decreases
{
    if q.len() == 0 {
        (m, Seq::empty())
    } else {
        let a = q.first();
        let rest = spec_drain(spec_dispatch(m, a), q.drop_first() + follow_up_seq(a));
        (rest.0, seq![a] + rest.1)
    }
}

#[via_fn]
proof fn spec_drain_decreases(m: Home, q: Seq<Action>) {
    if q.len() != 0 {
        let a = q.first();
        lemma_queue_weight_concat(q.drop_first(), follow_up_seq(a));
        lemma_follow_up_weight(a);
        assert(queue_weight(q) == action_weight(a) + queue_weight(q.drop_first()));
    }
}

/// The diagnostic trace a dispatched sequence leaves behind: every action
/// in dispatch order, except `Tick`.
pub open spec fn trace_filter(s: Seq<Action>) -> Seq<Action>
    decreases s.len(),
{
    if s.len() == 0 {
        Seq::empty()
    } else if spec_traced(s.last()) {
        trace_filter(s.drop_last()).push(s.last())
    } else {
        trace_filter(s.drop_last())
    }
}

/// Drains the queue into the model: records the front action in the trace
/// unless it is a `Tick`, dispatches it, re-enqueues the deferred action
/// it schedules, and repeats until the queue is empty. Every drained
/// action is dispatched, those behind a `Quit` included: `should_quit`
/// gates the caller's next cycle, not the batch that set it.
///
/// Returns the dispatched actions in order and the diagnostic trace.
pub fn drain(home: &mut Home, queue: &mut Vec<Action>) -> (r: (Vec<Action>, Vec<Action>))
    ensures
        *final(home) == spec_drain(*old(home), old(queue)@).0,
        r.0@ == spec_drain(*old(home), old(queue)@).1,
        final(queue)@ == Seq::<Action>::empty(),
        r.1@ == trace_filter(r.0@),
{
    let mut dispatched: Vec<Action> = Vec::new();
    let mut traced: Vec<Action> = Vec::new();
    while queue.len() > 0
        invariant
            spec_drain(*old(home), old(queue)@).0 == spec_drain(*home, queue@).0,
            spec_drain(*old(home), old(queue)@).1 == dispatched@ + spec_drain(*home, queue@).1,
            traced@ == trace_filter(dispatched@),
        decreases queue_weight(queue@),
    {
        let ghost m0 = *home;
        let ghost q0 = queue@;
        let ghost d0 = dispatched@;
        let a = queue.remove(0);
        if is_traced(&a) {
            traced.push(a);
        }
        dispatched.push(a);
        proof {
            assert(dispatched@.drop_last() =~= d0);
        }
        let fo = home.dispatch(a);
        if let Some(f) = fo {
            queue.push(f);
        }
        proof {
            assert(q0.remove(0) =~= q0.drop_first());
            let q1 = q0.drop_first() + follow_up_seq(a);
            assert(queue@ =~= q1);
            let m1 = spec_dispatch(m0, a);
            let rest = spec_drain(m1, q1);
            assert(spec_drain(m0, q0) == (rest.0, seq![a] + rest.1));
            assert(d0 + (seq![a] + rest.1) =~= (d0 + seq![a]) + rest.1);
            assert(dispatched@ =~= d0 + seq![a]);
            lemma_queue_weight_concat(q0.drop_first(), follow_up_seq(a));
            lemma_follow_up_weight(a);
            assert(queue_weight(q0) == action_weight(a) + queue_weight(q0.drop_first()));
        }
    }
    proof {
        assert(dispatched@ + Seq::<Action>::empty() =~= dispatched@);
    }
    (dispatched, traced)
}

/// The deferred actions that dispatching `q` schedules, in dispatch order
/// of the actions that schedule them.
pub open spec fn follow_ups(q: Seq<Action>) -> Seq<Action>
    decreases q.len(),
{
    if q.len() == 0 {
        Seq::empty()
    } else {
        follow_up_seq(q.first()) + follow_ups(q.drop_first())
    }
}

/// Deferred actions distribute over queue concatenation.
pub proof fn lemma_follow_ups_concat(s: Seq<Action>, t: Seq<Action>)
    ensures
        follow_ups(s + t) == follow_ups(s) + follow_ups(t),
    decreases s.len(),
{
    if s.len() == 0 {
        assert(s + t =~= t);
        assert(follow_ups(s) == Seq::<Action>::empty());
        assert(follow_ups(s) + follow_ups(t) =~= follow_ups(t));
    } else {
        assert((s + t).first() == s.first());
        assert((s + t).drop_first() =~= s.drop_first() + t);
        lemma_follow_ups_concat(s.drop_first(), t);
        assert(follow_up_seq(s.first()) + (follow_ups(s.drop_first()) + follow_ups(t)) =~= (
        follow_up_seq(s.first()) + follow_ups(s.drop_first())) + follow_ups(t));
    }
}

/// A deferred action never schedules further work and is never `Quit`.
pub proof fn lemma_follow_up_terminal(a: Action)
    ensures
        spec_follow_up(a) is Some ==> spec_follow_up(spec_follow_up(a)->Some_0) is None,
        spec_follow_up(a) is Some ==> spec_follow_up(a)->Some_0 != Action::Quit,
{
}

/// Only the `Quit` action sets `should_quit`, and nothing clears it.
pub proof fn lemma_dispatch_quit(m: Home, a: Action)
    ensures
        spec_dispatch(m, a).should_quit == (m.should_quit || a == Action::Quit),
{
}

/// Every enqueued action is passed to dispatch exactly once, with no loss
/// and no duplication: a drain dispatches precisely the enqueued actions
/// followed by the deferred actions they schedule, whether or not a `Quit`
/// stands among them.
pub proof fn lemma_every_action_dispatched_once(m: Home, q: Seq<Action>)
    ensures
        spec_drain(m, q).1 == q + follow_ups(q),
    decreases queue_weight(q),
{
    if q.len() == 0 {
        assert(q + follow_ups(q) =~= Seq::<Action>::empty());
        assert(spec_drain(m, q).1 == Seq::<Action>::empty());
    } else {
        let a = q.first();
        let m1 = spec_dispatch(m, a);
        let q1 = q.drop_first() + follow_up_seq(a);
        lemma_follow_up_terminal(a);
        lemma_queue_weight_concat(q.drop_first(), follow_up_seq(a));
        lemma_follow_up_weight(a);
        assert(queue_weight(q) == action_weight(a) + queue_weight(q.drop_first()));
        lemma_every_action_dispatched_once(m1, q1);
        lemma_follow_ups_concat(q.drop_first(), follow_up_seq(a));
        assert(follow_ups(follow_up_seq(a)) =~= Seq::<Action>::empty()) by {
            match spec_follow_up(a) {
                Some(f) => {
                    assert(follow_ups(seq![f]) == follow_up_seq(f) + follow_ups(
                        seq![f].drop_first(),
                    ));
                    assert(seq![f].drop_first() =~= Seq::<Action>::empty());
                    assert(follow_ups(Seq::<Action>::empty()) == Seq::<Action>::empty());
                    assert(follow_up_seq(f) =~= Seq::<Action>::empty());
                },
                None => {
                    assert(follow_up_seq(a) =~= Seq::<Action>::empty());
                    assert(follow_ups(Seq::<Action>::empty()) == Seq::<Action>::empty());
                },
            }
        }
        assert(follow_ups(q1) =~= follow_ups(q.drop_first()));
        assert(follow_ups(q) == follow_up_seq(a) + follow_ups(q.drop_first()));
        assert(seq![a] + (q1 + follow_ups(q1)) =~= q + follow_ups(q));
    }
}

/// The diagnostic trace never holds a `Tick`, and holds every other
/// dispatched action.
pub proof fn lemma_trace_excludes_exactly_tick(d: Seq<Action>)
    ensures
        forall|i: int| 0 <= i < trace_filter(d).len() ==> trace_filter(d)[i] != Action::Tick,
        forall|a: Action|
            d.contains(a) && a != Action::Tick ==> #[trigger] trace_filter(d).contains(a),
        forall|a: Action| #[trigger] trace_filter(d).contains(a) ==> d.contains(a),
    decreases d.len(),
{
    if d.len() == 0 {
    } else {
        let t = trace_filter(d);
        let dl = d.drop_last();
        lemma_trace_excludes_exactly_tick(dl);
        let tl = trace_filter(dl);
        assert forall|a: Action| d.contains(a) && a != Action::Tick implies #[trigger] t.contains(
            a,
        ) by {
            let i = choose|i: int| 0 <= i < d.len() && d[i] == a;
            if i < d.len() - 1 {
                assert(dl[i] == a);
                assert(dl.contains(a));
                assert(tl.contains(a));
                let j = choose|j: int| 0 <= j < tl.len() && tl[j] == a;
                assert(t[j] == a);
            } else {
                assert(a == d.last());
                assert(t[t.len() - 1] == a);
            }
        }
        assert forall|a: Action| #[trigger] t.contains(a) implies d.contains(a) by {
            let j = choose|j: int| 0 <= j < t.len() && t[j] == a;
            if spec_traced(d.last()) && j == t.len() - 1 {
                assert(d[d.len() - 1] == a);
            } else {
                assert(tl[j] == a);
                assert(tl.contains(a));
                let i = choose|i: int| 0 <= i < dl.len() && dl[i] == a;
                assert(d[i] == a);
            }
        }
    }
}

/// `should_quit` is monotonic and set by exactly the `Quit` action: after
/// a drain it holds precisely when it already held or a `Quit` was
/// dispatched, and a `Quit` is dispatched precisely when one was
/// enqueued. Once the caller's quit check observes the flag, no further
/// drain cycle runs; the flag never gates the batch that set it.
pub proof fn lemma_quit_is_monotonic(m: Home, q: Seq<Action>)
    ensures
        spec_drain(m, q).0.should_quit == (m.should_quit || spec_drain(m, q).1.contains(
            Action::Quit,
        )),
        spec_drain(m, q).1.contains(Action::Quit) == q.contains(Action::Quit),
    decreases queue_weight(q),
{
    if q.len() == 0 {
        assert(!spec_drain(m, q).1.contains(Action::Quit));
        assert(!q.contains(Action::Quit));
    } else {
        let a = q.first();
        let m1 = spec_dispatch(m, a);
        let q1 = q.drop_first() + follow_up_seq(a);
        lemma_queue_weight_concat(q.drop_first(), follow_up_seq(a));
        lemma_follow_up_weight(a);
        assert(queue_weight(q) == action_weight(a) + queue_weight(q.drop_first()));
        lemma_quit_is_monotonic(m1, q1);
        lemma_dispatch_quit(m, a);
        lemma_follow_up_terminal(a);
        let d1 = spec_drain(m1, q1).1;
        let d = spec_drain(m, q).1;
        assert(d == seq![a] + d1);
        assert(d.contains(Action::Quit) == (a == Action::Quit || d1.contains(Action::Quit))) by {
            if d1.contains(Action::Quit) {
                let j = choose|j: int| 0 <= j < d1.len() && d1[j] == Action::Quit;
                assert(d[j + 1] == Action::Quit);
                assert(d.contains(Action::Quit));
            }
            if a == Action::Quit {
                assert(d[0] == Action::Quit);
                assert(d.contains(Action::Quit));
            }
            if d.contains(Action::Quit) && a != Action::Quit {
                let j = choose|j: int| 0 <= j < d.len() && d[j] == Action::Quit;
                assert(j != 0);
                assert(d1[j - 1] == Action::Quit);
                assert(d1.contains(Action::Quit));
            }
        }
        assert(q1.contains(Action::Quit) == q.drop_first().contains(Action::Quit)) by {
            if q.drop_first().contains(Action::Quit) {
                let j = choose|j: int|
                    0 <= j < q.drop_first().len() && q.drop_first()[j] == Action::Quit;
                assert(q1[j] == Action::Quit);
                assert(q1.contains(Action::Quit));
            }
            if q1.contains(Action::Quit) {
                let j = choose|j: int| 0 <= j < q1.len() && q1[j] == Action::Quit;
                if j < q.drop_first().len() {
                    assert(q.drop_first().contains(Action::Quit));
                } else {
                    assert(follow_up_seq(a)[j - q.drop_first().len()] == Action::Quit);
                    assert(false);
                }
            }
        }
        assert(q.contains(Action::Quit) == (a == Action::Quit || q.drop_first().contains(
            Action::Quit,
        ))) by {
            if q.drop_first().contains(Action::Quit) {
                let j = choose|j: int|
                    0 <= j < q.drop_first().len() && q.drop_first()[j] == Action::Quit;
                assert(q[j + 1] == Action::Quit);
                assert(q.contains(Action::Quit));
            }
            if a == Action::Quit {
                assert(q[0] == Action::Quit);
                assert(q.contains(Action::Quit));
            }
            if q.contains(Action::Quit) && a != Action::Quit {
                let j = choose|j: int| 0 <= j < q.len() && q[j] == Action::Quit;
                assert(j != 0);
                assert(q.drop_first()[j - 1] == Action::Quit);
                assert(q.drop_first().contains(Action::Quit));
            }
        }
    }
}

/// Every element the drain ever defers is itself without a deferral.
pub proof fn lemma_follow_ups_terminal(q: Seq<Action>, k: int)
    requires
        0 <= k < follow_ups(q).len(),
    ensures
        spec_follow_up(follow_ups(q)[k]) is None,
    decreases q.len(),
{
    let a = q.first();
    lemma_follow_up_terminal(a);
    let head = follow_up_seq(a);
    if k < head.len() {
        assert(follow_ups(q)[k] == head[k]);
    } else {
        assert(follow_ups(q)[k] == follow_ups(q.drop_first())[k - head.len()]);
        lemma_follow_ups_terminal(q.drop_first(), k - head.len());
    }
}

/// When dispatch returns a deferred action, that action is observed by a
/// later dispatch of the same run: each dispatched action's deferral
/// appears at a later position of the drain's dispatched sequence.
pub proof fn lemma_follow_up_dispatched_later(m: Home, q: Seq<Action>)
    ensures
        forall|i: int|
            0 <= i < spec_drain(m, q).1.len() && spec_follow_up(
                #[trigger] spec_drain(m, q).1[i],
            ) is Some ==> exists|j: int|
                i < j < spec_drain(m, q).1.len() && spec_drain(m, q).1[j] == spec_follow_up(
                    spec_drain(m, q).1[i],
                )->Some_0,
{
    lemma_every_action_dispatched_once(m, q);
    let d = spec_drain(m, q).1;
    assert forall|i: int|
        0 <= i < d.len() && spec_follow_up(#[trigger] d[i]) is Some implies exists|j: int|
        i < j < d.len() && d[j] == spec_follow_up(d[i])->Some_0 by {
        if i < q.len() {
            assert(d[i] == q[i]);
            let f = spec_follow_up(q[i])->Some_0;
            let pre = q.take(i);
            let post = q.skip(i);
            assert(pre + post =~= q);
            lemma_follow_ups_concat(pre, post);
            assert(post.first() == q[i]);
            assert(follow_ups(post) == follow_up_seq(q[i]) + follow_ups(post.drop_first()));
            assert(follow_up_seq(q[i])[0] == f);
            let j = q.len() + follow_ups(pre).len() as int;
            assert(follow_ups(q)[follow_ups(pre).len() as int] == f);
            assert(d[j] == f);
            assert(i < j < d.len());
        } else {
            assert(d[i] == follow_ups(q)[i - q.len()]);
            lemma_follow_ups_terminal(q, i - q.len());
            assert(false);
        }
    }
}

/// True when `a` is one of the two counter-delta commands.
pub open spec fn is_counter_delta(a: Action) -> bool {
    a matches Action::AddToCounter(_) || a matches Action::SubtractFromCounter(_)
}

/// The counter after applying a sequence of counter deltas in order, each
/// one in full, clamped at the ends of `usize`.
pub open spec fn apply_deltas(c: usize, q: Seq<Action>) -> usize
    decreases q.len(),
{
    if q.len() == 0 {
        c
    } else {
        let c1 = match q.first() {
            Action::AddToCounter(n) => crate::home::sat_add_usize(c, n),
            Action::SubtractFromCounter(n) => crate::home::sat_sub_usize(c, n),
            _ => c,
        };
        apply_deltas(c1, q.drop_first())
    }
}

/// The counter is never torn: after a drain of counter deltas it equals
/// exactly the deltas applied in full, one after the other, never an
/// intermediate or partial value, and every delta is dispatched.
pub proof fn lemma_counter_sums_applied_deltas(m: Home, q: Seq<Action>)
    requires
        forall|i: int| 0 <= i < q.len() ==> is_counter_delta(#[trigger] q[i]),
    ensures
        spec_drain(m, q).0.counter == apply_deltas(m.counter, q),
        spec_drain(m, q).1 == q,
    decreases q.len(),
{
    if q.len() == 0 {
    } else {
        let a = q.first();
        assert(is_counter_delta(a));
        let m1 = spec_dispatch(m, a);
        let q1 = q.drop_first() + follow_up_seq(a);
        assert(follow_up_seq(a) =~= Seq::<Action>::empty());
        assert(q1 =~= q.drop_first());
        assert(forall|i: int|
            0 <= i < q.drop_first().len() ==> q.drop_first()[i] == q[i + 1]);
        lemma_counter_sums_applied_deltas(m1, q.drop_first());
        assert(spec_drain(m, q).1 == seq![a] + spec_drain(m1, q1).1);
        assert(seq![a] + q.drop_first() =~= q);
    }
}

} // verus!
