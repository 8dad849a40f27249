//! Capabilities around the reactor: the thread-safe registration handle and
//! the reference-counted registered-resource handle.
//!
//! Both talk to the reactor only by submitting [`Request`] values into the
//! driver's channel; the verified state here is what those submissions must
//! be and when they may happen. `EventedHandle` models the shared count that
//! every clone of one registered-resource capability observes: the driver
//! keeps it behind its sharing primitive and mirrors each clone and drop as
//! one [`EventedHandle::acquire`] or [`EventedHandle::release`] transition.

use vstd::prelude::*;
use crate::poller::{Interest, Request};

verus! {

/// A capability to submit registration requests, with a locally cached
/// liveness flag: once a submission fails the reactor is gone for good, and
/// the handle degrades to dead.
#[derive(Clone, Copy, Debug)]
pub struct PollerHandle {
    pub is_alive: bool,
}

impl PollerHandle {
    /// A handle to a reachable reactor.
    pub fn new() -> (h: Self)
        ensures
            h.is_alive,
    {
        PollerHandle { is_alive: true }
    }

    pub fn is_alive(&self) -> (r: bool)
        ensures
            r == self.is_alive,
    {
        self.is_alive
    }

    /// Records the outcome of one submission into the request channel: a
    /// failed send marks the reactor dead, and no success revives it.
    pub fn note_submission(&mut self, sent: bool)
        ensures
            final(self).is_alive == (old(self).is_alive && sent),
    {
        if !sent {
            self.is_alive = false;
        }
    }
}

/// One clone or drop of a registered-resource handle, as seen by the shared
/// count all its clones observe.
pub enum HandleOp {
    Acquire,
    Release,
}

/// The shared count after a history of clone and drop operations, starting
/// from the single handle that registration returns.
pub open spec fn count_after(ops: Seq<HandleOp>) -> int
    decreases ops.len(),
{
    if ops.len() == 0 {
        1
    } else {
        count_after(ops.drop_last()) + (if ops.last() == HandleOp::Acquire {
            1int
        } else {
            -1int
        })
    }
}

/// How many of the drops in a history were the last drop, i.e. submitted
/// the deregister request.
pub open spec fn deregistrations(ops: Seq<HandleOp>) -> int
    decreases ops.len(),
{
    if ops.len() == 0 {
        0
    } else {
        deregistrations(ops.drop_last()) + (if ops.last() == HandleOp::Release && count_after(
            ops.drop_last(),
        ) == 1 {
            1int
        } else {
            0int
        })
    }
}

/// The shared state of one registered resource's handles: the token the
/// resource is bound to, the number of live clones, and the ghost history
/// of clones and drops the count results from. The count starts at one,
/// each clone raises it, each drop lowers it, and the drop that takes it
/// from one to zero is the single point where a deregister request for the
/// token must be submitted.
pub struct EventedHandle {
    pub token: usize,
    pub count: usize,
    /// The clone/drop history behind the current count.
    pub ops: Ghost<Seq<HandleOp>>,
}

impl EventedHandle {
    /// The count is exactly what its history prescribes.
    pub open spec fn wf(self) -> bool {
        self.count == count_after(self.ops@)
    }

    /// The state right after registration replies with a token: one handle,
    /// empty history.
    pub fn new(token: usize) -> (h: Self)
        ensures
            h.token == token,
            h.count == 1,
            h.ops@ == Seq::<HandleOp>::empty(),
            h.wf(),
    {
        EventedHandle { token, count: 1, ops: Ghost(Seq::empty()) }
    }

    /// The monitor request one handle submits: a one-time wake-up for this
    /// token in the given direction, delivered through the given notifier.
    pub fn monitor<E, N>(&self, interest: Interest, notifier: N) -> (r: Request<E, N>)
        ensures
            r == Request::<E, N>::Monitor(self.token, interest, notifier),
    {
        Request::Monitor(self.token, interest, notifier)
    }

    /// One more clone of the handle comes alive. A clone never submits a
    /// deregister request.
    pub fn acquire(&mut self)
        requires
            old(self).wf(),
            old(self).count < usize::MAX,
        ensures
            final(self).wf(),
            final(self).count == old(self).count + 1,
            final(self).token == old(self).token,
            final(self).ops@ == old(self).ops@.push(HandleOp::Acquire),
            deregistrations(final(self).ops@) == deregistrations(old(self).ops@),
    {
        self.count = self.count + 1;
        proof {
            self.ops@ = self.ops@.push(HandleOp::Acquire);
            assert(self.ops@.drop_last() =~= old(self).ops@);
        }
    }

    /// One clone of the handle is dropped. Returns true exactly when this
    /// was the last live handle, i.e. exactly when the history gains its
    /// deregistration and the caller must submit the single deregister
    /// request for the token.
    pub fn release(&mut self) -> (deregister: bool)
        requires
            old(self).wf(),
            old(self).count >= 1,
        ensures
            final(self).wf(),
            final(self).count == old(self).count - 1,
            final(self).token == old(self).token,
            final(self).ops@ == old(self).ops@.push(HandleOp::Release),
            deregister == (old(self).count == 1),
            deregistrations(final(self).ops@) == deregistrations(old(self).ops@) + (if deregister {
                1int
            } else {
                0int
            }),
    {
        let last = self.count == 1;
        self.count = self.count - 1;
        proof {
            self.ops@ = self.ops@.push(HandleOp::Release);
            assert(self.ops@.drop_last() =~= old(self).ops@);
        }
        last
    }

    /// The deregister request the last drop submits.
    pub fn deregister_request<E, N>(&self) -> (r: Request<E, N>)
        ensures
            r == Request::<E, N>::Deregister(self.token),
    {
        Request::Deregister(self.token)
    }
}

} // verus!
