//! The reactor's cross-function guarantees, each proved from the transition
//! contracts in [`crate::poller`] and the counting discipline in
//! [`crate::handle`].

use vstd::prelude::*;
use crate::poller::{
    Poller, EventOutcome, Interest, Arm, register_post, deregister_post, monitor_post, event_post,
    readiness_of, other_interest,
};
use crate::handle::{HandleOp, count_after, deregistrations};

verus! {

/// Token uniqueness: registrations never hand out a token that is still
/// live, so no two simultaneously-live registrants share a token. Two
/// successive registrations yield distinct tokens, and the second token is
/// distinct from every token that was live before it.
pub proof fn token_uniqueness<E, N>(
    s0: Poller<E, N>,
    s1: Poller<E, N>,
    s2: Poller<E, N>,
    e1: E,
    e2: E,
    t1: usize,
    t2: usize,
)
    requires
        register_post(s0, s1, e1, t1),
        register_post(s1, s2, e2, t2),
    ensures
        t1 != t2,
        s2.registrants@.contains_key(t1),
        s2.registrants@.contains_key(t2),
        forall|t: usize| s1.registrants@.contains_key(t) ==> t2 != t,
{
    assert(s1.registrants@.dom().contains(t1));
}

/// Rearm on transition: a direction's first waiter triggers exactly one
/// facility (re)registration, and a waiter added while that direction is
/// already non-empty triggers none.
pub proof fn rearm_on_transition<E, N>(
    s0: Poller<E, N>,
    s1: Poller<E, N>,
    s2: Poller<E, N>,
    token: usize,
    interest: Interest,
    n1: N,
    n2: N,
    arm1: Option<Arm>,
    arm2: Option<Arm>,
)
    requires
        s0.registrants@[token].waiters(interest).len() == 0,
        monitor_post(s0, s1, token, interest, n1, arm1),
        monitor_post(s1, s2, token, interest, n2, arm2),
    ensures
        arm1 is Some,
        arm2 is None,
{
}

/// Broadcast firing: one readiness event for a direction hands back every
/// waiter then queued for it, in arrival order, and leaves none pending;
/// the other direction's queue is untouched and fires nothing.
pub proof fn broadcast_firing<E, N>(
    pre: Poller<E, N>,
    post: Poller<E, N>,
    token: usize,
    interest: Interest,
    out: EventOutcome<N>,
)
    requires
        event_post(pre, post, token, readiness_of(interest), out),
    ensures
        out.fired(interest) == pre.registrants@[token].waiters(interest),
        post.registrants@[token].waiters(interest).len() == 0,
        out.fired(other_interest(interest)).len() == 0,
        post.registrants@[token].waiters(other_interest(interest)) == pre.registrants@[token].waiters(
            other_interest(interest),
        ),
{
}

/// A chain of monitor transitions, all for the same token and direction:
/// `states` walks from the first poller state to the last, one pushed
/// notifier and one arm decision per step.
pub open spec fn monitor_chain<E, N>(
    states: Seq<Poller<E, N>>,
    token: usize,
    interest: Interest,
    notifiers: Seq<N>,
    arms: Seq<Option<Arm>>,
) -> bool {
    &&& states.len() == notifiers.len() + 1
    &&& arms.len() == notifiers.len()
    &&& forall|i: int|
        0 <= i < notifiers.len() ==> monitor_post(
            states[i],
            states[i + 1],
            token,
            interest,
            notifiers[i],
            arms[i],
        )
}

/// Monitor calls accumulate: a chain of monitor transitions for one
/// direction appends exactly its notifiers, in submission order, to that
/// direction's queue.
pub proof fn queued_waiters_accumulate<E, N>(
    states: Seq<Poller<E, N>>,
    token: usize,
    interest: Interest,
    notifiers: Seq<N>,
    arms: Seq<Option<Arm>>,
)
    requires
        monitor_chain(states, token, interest, notifiers, arms),
    ensures
        states.last().registrants@[token].waiters(interest) == states[0].registrants@[token].waiters(
            interest,
        ) + notifiers,
    decreases notifiers.len(),
{
    let n = notifiers.len() as int;
    if n == 0 {
        assert(states.last().registrants@[token].waiters(interest) =~= states[0].registrants@[token].waiters(
            interest,
        ) + notifiers);
    } else {
        let sub = states.take(n);
        assert forall|i: int| 0 <= i < n - 1 implies monitor_post(
            sub[i],
            sub[i + 1],
            token,
            interest,
            notifiers.drop_last()[i],
            arms.drop_last()[i],
        ) by {
            assert(monitor_post(states[i], states[i + 1], token, interest, notifiers[i], arms[i]));
        }
        queued_waiters_accumulate(sub, token, interest, notifiers.drop_last(), arms.drop_last());
        assert(monitor_post(
            states[n - 1],
            states[n],
            token,
            interest,
            notifiers[n - 1],
            arms[n - 1],
        ));
        assert(states.last().registrants@[token].waiters(interest) =~= states[0].registrants@[token].waiters(
            interest,
        ) + notifiers);
    }
}

/// Broadcast firing for a whole group of waiters: when every waiter of a
/// direction was queued by the chain (the queue started empty), a single
/// readiness event for that direction fires exactly those notifiers, in
/// submission order, and leaves none pending.
pub proof fn all_monitored_waiters_fire<E, N>(
    states: Seq<Poller<E, N>>,
    token: usize,
    interest: Interest,
    notifiers: Seq<N>,
    arms: Seq<Option<Arm>>,
    post: Poller<E, N>,
    out: EventOutcome<N>,
)
    requires
        monitor_chain(states, token, interest, notifiers, arms),
        states[0].registrants@[token].waiters(interest).len() == 0,
        event_post(states.last(), post, token, readiness_of(interest), out),
    ensures
        out.fired(interest) == notifiers,
        post.registrants@[token].waiters(interest).len() == 0,
        out.fired(other_interest(interest)).len() == 0,
{
    queued_waiters_accumulate(states, token, interest, notifiers, arms);
    assert(states[0].registrants@[token].waiters(interest) + notifiers =~= notifiers);
    broadcast_firing(states.last(), post, token, interest, out);
}

/// Never-registered short-circuit: deregistering a resource that was
/// registered and then never monitored asks the OS facility for nothing,
/// and hands the very resource back.
pub proof fn never_registered_short_circuit<E, N>(
    s0: Poller<E, N>,
    s1: Poller<E, N>,
    s2: Poller<E, N>,
    e: E,
    e_out: E,
    token: usize,
    os_deregister: bool,
)
    requires
        register_post(s0, s1, e, token),
        deregister_post(s1, s2, token, e_out, os_deregister),
    ensures
        !os_deregister,
        e_out == e,
{
}

/// The complement of the short-circuit: once a monitor call armed the OS
/// facility for a token, deregistering that token must tell the facility.
pub proof fn armed_deregister_notifies_facility<E, N>(
    s0: Poller<E, N>,
    s1: Poller<E, N>,
    s2: Poller<E, N>,
    token: usize,
    interest: Interest,
    n: N,
    arm: Arm,
    e_out: E,
    os_deregister: bool,
)
    requires
        monitor_post(s0, s1, token, interest, n, Some(arm)),
        deregister_post(s1, s2, token, e_out, os_deregister),
    ensures
        os_deregister,
{
}

/// Cloning a handle `k` times and then dropping all `k + 1` references.
pub open spec fn teardown_ops(k: nat, j: nat) -> Seq<HandleOp> {
    Seq::new(k, |i: int| HandleOp::Acquire) + Seq::new(j, |i: int| HandleOp::Release)
}

proof fn lemma_acquires_only(k: nat)
    ensures
        count_after(Seq::new(k, |i: int| HandleOp::Acquire)) == 1 + k,
        deregistrations(Seq::new(k, |i: int| HandleOp::Acquire)) == 0,
    decreases k,
{
    if k > 0 {
        lemma_acquires_only((k - 1) as nat);
        assert(Seq::new(k, |i: int| HandleOp::Acquire).drop_last() =~= Seq::new(
            (k - 1) as nat,
            |i: int| HandleOp::Acquire,
        ));
    }
}

proof fn lemma_teardown_prefix(k: nat, j: nat)
    requires
        j <= k + 1,
    ensures
        count_after(teardown_ops(k, j)) == 1 + k - j,
        deregistrations(teardown_ops(k, j)) == if j == k + 1 {
            1int
        } else {
            0int
        },
    decreases j,
{
    if j == 0 {
        assert(teardown_ops(k, 0) =~= Seq::new(k, |i: int| HandleOp::Acquire));
        lemma_acquires_only(k);
    } else {
        lemma_teardown_prefix(k, (j - 1) as nat);
        assert(teardown_ops(k, j).drop_last() =~= teardown_ops(k, (j - 1) as nat));
        assert(teardown_ops(k, j).last() == HandleOp::Release);
    }
}

/// Reference-counted teardown: cloning a registered-resource handle `k`
/// times and then dropping all `k + 1` references submits exactly one
/// deregister request; no proper prefix of the drops submits any, so the
/// request goes out only at the last drop, never before.
pub proof fn reference_counted_teardown(k: nat)
    ensures
        deregistrations(teardown_ops(k, k + 1)) == 1,
        count_after(teardown_ops(k, k + 1)) == 0,
        forall|j: nat| j <= k ==> #[trigger] deregistrations(teardown_ops(k, j)) == 0,
{
    lemma_teardown_prefix(k, k + 1);
    assert forall|j: nat| j <= k implies #[trigger] deregistrations(teardown_ops(k, j)) == 0 by {
        lemma_teardown_prefix(k, j);
    }
}

} // verus!
