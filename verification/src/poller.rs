//! The reactor core: registrant bookkeeping, token allocation, and the
//! request- and event-handling transitions of the poller.
//!
//! The poller is generic over `E`, the pollable resource a registrant owns,
//! and `N`, the one-shot notifier a waiter leaves behind. Both are opaque to
//! the core: resources are only stored and handed back, notifiers are only
//! queued and handed back for firing. Every call against the OS readiness
//! facility is returned to the driver as a plain [`Arm`] value instead of
//! being performed here, so each decision the reactor takes is verified.

use vstd::prelude::*;
use std::collections::HashMap;
use crate::handle::PollerHandle;

verus! {

broadcast use vstd::std_specs::hash::group_hash_axioms;

/// Default capacity of the ready-events buffer a driver should collect into.
pub const DEFAULT_EVENTS_CAPACITY: usize = 128;

/// A direction of readiness a waiter can ask to be woken for.
#[derive(Clone, Copy, Debug, PartialEq, Eq, Structural)]
pub enum Interest {
    Read,
    Write,
}

/// A set of readiness directions, as reported by or requested from the OS
/// readiness facility.
#[derive(Clone, Copy, Debug, PartialEq, Eq, Structural)]
pub struct Readiness {
    pub readable: bool,
    pub writable: bool,
}

impl Readiness {
    /// True when neither direction is present.
    pub open spec fn is_empty_spec(self) -> bool {
        !self.readable && !self.writable
    }

    /// The empty set of directions.
    pub fn none() -> (r: Self)
        ensures
            r.is_empty_spec(),
    {
        Readiness { readable: false, writable: false }
    }

    pub fn is_empty(&self) -> (r: bool)
        ensures
            r == self.is_empty_spec(),
    {
        !self.readable && !self.writable
    }
}

/// One (re)registration call the OS readiness facility must be asked for.
///
/// `first` selects between the facility's initial-register call and its
/// reregister call; `interest` is the combined effective interest the
/// registration must carry.
#[derive(Clone, Copy, Debug, PartialEq, Eq, Structural)]
pub struct Arm {
    pub token: usize,
    pub first: bool,
    pub interest: Readiness,
}

/// Per-resource bookkeeping owned exclusively by the reactor.
pub struct Registrant<E, N> {
    /// The pollable resource; exclusively owned by the reactor once registered.
    pub evented: E,
    /// True until the resource has been registered with the OS facility once.
    pub is_first: bool,
    /// Pending waiters for readability, in arrival order.
    pub read_waitings: Vec<N>,
    /// Pending waiters for writability, in arrival order.
    pub write_waitings: Vec<N>,
}

impl<E, N> Registrant<E, N> {
    /// Effective interest, derived from the waiter queues: a direction is
    /// wanted exactly when its queue is non-empty.
    pub open spec fn interest_spec(self) -> Readiness {
        Readiness {
            readable: self.read_waitings@.len() > 0,
            writable: self.write_waitings@.len() > 0,
        }
    }

    /// The waiter queue for one direction.
    pub open spec fn waiters(self, interest: Interest) -> Seq<N> {
        match interest {
            Interest::Read => self.read_waitings@,
            Interest::Write => self.write_waitings@,
        }
    }

    /// A fresh registrant: never registered with the OS facility, no waiters.
    pub fn new(evented: E) -> (r: Self)
        ensures
            r.evented == evented,
            r.is_first,
            r.read_waitings@ == Seq::<N>::empty(),
            r.write_waitings@ == Seq::<N>::empty(),
    {
        Registrant {
            evented,
            is_first: true,
            read_waitings: Vec::new(),
            write_waitings: Vec::new(),
        }
    }

    /// The interest mask to hand the OS facility, derived from the queues.
    pub fn mio_interest(&self) -> (r: Readiness)
        ensures
            r == self.interest_spec(),
    {
        Readiness {
            readable: self.read_waitings.len() > 0,
            writable: self.write_waitings.len() > 0,
        }
    }

    /// Decides the facility call that re-arms this registrant: nothing when
    /// effective interest is empty (the resource silently falls out of the
    /// watch set), otherwise one register call the first time and one
    /// reregister call thereafter.
    pub fn rearm(&mut self, token: usize) -> (arm: Option<Arm>)
        ensures
            rearm_post(*old(self), *final(self), token, arm),
    {
        let interest = self.mio_interest();
        if interest.is_empty() {
            None
        } else {
            let first = self.is_first;
            self.is_first = false;
            Some(Arm { token, first, interest })
        }
    }
}

/// What [`Registrant::rearm`] does: with empty effective interest the
/// registrant is untouched and no facility call is requested; otherwise the
/// call carries the derived interest, selects register/reregister by whether
/// the registrant was never armed before, and the registrant is marked armed.
pub open spec fn rearm_post<E, N>(
    pre: Registrant<E, N>,
    post: Registrant<E, N>,
    token: usize,
    arm: Option<Arm>,
) -> bool {
    &&& post.evented == pre.evented
    &&& post.read_waitings@ == pre.read_waitings@
    &&& post.write_waitings@ == pre.write_waitings@
    &&& if pre.interest_spec().is_empty_spec() {
        &&& arm is None
        &&& post.is_first == pre.is_first
    } else {
        &&& arm == Some(Arm { token, first: pre.is_first, interest: pre.interest_spec() })
        &&& !post.is_first
    }
}

/// One entry of the request protocol: the vocabulary any thread may send to
/// the reactor. Ownership of the resource transfers on `Register`; the
/// timeout entries are reserved and not yet part of the protocol.
pub enum Request<E, N> {
    Register(E),
    Deregister(usize),
    Monitor(usize, Interest, N),
    SetTimeout,
    CancelTimeout,
}

impl<E, N> Request<E, N> {
    /// Reserved entries that the reactor does not accept yet.
    pub open spec fn is_reserved(self) -> bool {
        match self {
            Request::SetTimeout | Request::CancelTimeout => true,
            _ => false,
        }
    }

    /// Whether the token a request addresses is live in the given poller.
    /// Register requests address no token.
    pub open spec fn targets_live<E2, N2>(self, p: Poller<E2, N2>) -> bool {
        match self {
            Request::Deregister(token) => p.live(token),
            Request::Monitor(token, _, _) => p.live(token),
            _ => true,
        }
    }
}

/// The reactor's reply to one processed request.
pub enum Outcome<E> {
    /// Reply to `Register`: the fresh token now bound to the resource.
    Registered(usize),
    /// Reply to `Deregister`: the resource handed back to the driver, and
    /// whether the OS facility must be told to forget it (it must exactly
    /// when the resource had ever been registered there).
    Deregistered(E, bool),
    /// Reply to `Monitor`: the facility call to make, present exactly when
    /// the pushed queue crossed the empty-to-non-empty edge.
    Monitored(Option<Arm>),
}

/// What one readiness event produced: the notifiers to fire, in arrival
/// order, and the facility call that re-arms the registrant, if any interest
/// remains.
pub struct EventOutcome<N> {
    pub fired_read: Vec<N>,
    pub fired_write: Vec<N>,
    pub rearm: Option<Arm>,
}

impl<N> EventOutcome<N> {
    /// The notifiers fired for one direction.
    pub open spec fn fired(self, interest: Interest) -> Seq<N> {
        match interest {
            Interest::Read => self.fired_read@,
            Interest::Write => self.fired_write@,
        }
    }
}

/// The readiness set that reports exactly one direction.
pub open spec fn readiness_of(interest: Interest) -> Readiness {
    match interest {
        Interest::Read => Readiness { readable: true, writable: false },
        Interest::Write => Readiness { readable: false, writable: true },
    }
}

/// The reactor: token allocator and token-to-registrant map. The OS polling
/// handle, the ready-events buffer and the request channel stay with the
/// driver; this state answers, for every received request and observed
/// event, what must happen next.
pub struct Poller<E, N> {
    /// Next counter value the token allocator will try.
    pub next_token: usize,
    /// Capacity the driver should give the ready-events buffer.
    pub events_capacity: usize,
    /// All currently live registrants, keyed by token.
    pub registrants: HashMap<usize, Registrant<E, N>>,
}

impl<E, N> Poller<E, N> {
    /// A token is live while its registrant is in the map.
    pub open spec fn live(self, token: usize) -> bool {
        self.registrants@.contains_key(token)
    }

    pub fn new() -> (p: Self)
        ensures
            p.registrants@ == Map::<usize, Registrant<E, N>>::empty(),
            p.events_capacity == DEFAULT_EVENTS_CAPACITY,
            p.next_token == 0,
    {
        Self::with_capacity(DEFAULT_EVENTS_CAPACITY)
    }

    pub fn with_capacity(capacity: usize) -> (p: Self)
        ensures
            p.registrants@ == Map::<usize, Registrant<E, N>>::empty(),
            p.events_capacity == capacity,
            p.next_token == 0,
    {
        Poller { next_token: 0, events_capacity: capacity, registrants: HashMap::new() }
    }

    /// How many resources are currently registered.
    pub fn registrant_count(&self) -> (n: usize)
        ensures
            n == self.registrants@.len(),
    {
        self.registrants.len()
    }

    /// A capability to submit requests to this reactor, initially alive.
    pub fn handle(&self) -> (h: PollerHandle)
        ensures
            h.is_alive,
    {
        PollerHandle::new()
    }

    /// Whether a token is currently live.
    pub fn contains_token(&self, token: usize) -> (r: bool)
        ensures
            r == self.live(token),
    {
        self.registrants.contains_key(&token)
    }

    /// Computes the wait timeout for the blocking readiness call of one loop
    /// iteration: right after a request was serviced the wait must not
    /// block, so a backlog of requests is drained promptly.
    pub fn poll_timeout(&self, did_something: bool, timeout: Option<u64>) -> (t: Option<u64>)
        ensures
            did_something ==> t == Some(0u64),
            !did_something ==> t == timeout,
    {
        if did_something {
            Some(0)
        } else {
            timeout
        }
    }

    /// Allocates a token for a new registrant: a wrap-around counter that
    /// skips values still in use, so no live registrant's token is returned.
    fn next_token(&mut self) -> (token: usize)
        ensures
            final(self).registrants == old(self).registrants,
            final(self).events_capacity == old(self).events_capacity,
            !final(self).registrants@.contains_key(token),
    {
        let ghost start = self.next_token;
        let n = self.registrants.len();
        let ghost mut scanned: Seq<usize> = Seq::empty();
        loop
            invariant
                self.registrants == old(self).registrants,
                self.events_capacity == old(self).events_capacity,
                n == self.registrants@.dom().len(),
                scanned.len() <= n,
                self.next_token == nth_candidate(start, scanned.len() as int),
                forall|j: int| 0 <= j < scanned.len() ==> scanned[j] == nth_candidate(start, j),
                forall|j: int|
                    0 <= j < scanned.len() ==> self.registrants@.dom().contains(scanned[j]),
            decreases n + 1 - scanned.len(),
        {
            let token = self.next_token;
            self.next_token = if token == usize::MAX {
                0
            } else {
                token + 1
            };
            if !self.registrants.contains_key(&token) {
                return token;
            }
            proof {
                lemma_scan_extends(self.registrants@.dom(), start, scanned, token);
                scanned = scanned.push(token);
            }
        }
    }

    /// Processes one received request. The reserved timeout entries are not
    /// accepted, and a deregister or monitor request must address a live
    /// token: the reactor treats an unknown token as a broken invariant, and
    /// a driver must abort on it rather than call this.
    pub fn handle_request(&mut self, request: Request<E, N>) -> (out: Outcome<E>)
        requires
            !request.is_reserved(),
            request.targets_live(*old(self)),
        ensures
            request_post(*old(self), *final(self), request, out),
    {
        match request {
            Request::Register(evented) => {
                let token = self.next_token();
                let r = Registrant::new(evented);
                self.registrants.insert(token, r);
                proof {
                    assert(final(self).registrants@.dom() =~= old(
                        self,
                    ).registrants@.dom().insert(token));
                }
                Outcome::Registered(token)
            }
            Request::Deregister(token) => {
                let r = match self.registrants.remove(&token) {
                    Some(r) => r,
                    None => vstd::pervasive::unreached(),
                };
                let Registrant { evented, is_first, read_waitings: _, write_waitings: _ } = r;
                Outcome::Deregistered(evented, !is_first)
            }
            Request::Monitor(token, interest, notifier) => {
                let mut r = match self.registrants.remove(&token) {
                    Some(r) => r,
                    None => vstd::pervasive::unreached(),
                };
                let was_empty = match interest {
                    Interest::Read => r.read_waitings.len() == 0,
                    Interest::Write => r.write_waitings.len() == 0,
                };
                match interest {
                    Interest::Read => r.read_waitings.push(notifier),
                    Interest::Write => r.write_waitings.push(notifier),
                }
                let arm = if was_empty {
                    r.rearm(token)
                } else {
                    None
                };
                self.registrants.insert(token, r);
                proof {
                    assert(final(self).registrants@.dom() =~= old(self).registrants@.dom());
                }
                Outcome::Monitored(arm)
            }
            Request::SetTimeout => vstd::pervasive::unreached(),
            Request::CancelTimeout => vstd::pervasive::unreached(),
        }
    }

    /// Processes one readiness event the OS facility reported for a live
    /// token: every pending waiter of each reported direction is handed back
    /// for firing (broadcast, in arrival order), the queues of the reported
    /// directions are emptied, and the registrant is re-armed exactly when
    /// some interest remains.
    pub fn handle_event(&mut self, token: usize, readiness: Readiness) -> (out: EventOutcome<N>)
        requires
            old(self).live(token),
        ensures
            event_post(*old(self), *final(self), token, readiness, out),
    {
        let mut r = match self.registrants.remove(&token) {
            Some(r) => r,
            None => vstd::pervasive::unreached(),
        };
        let mut fired_read: Vec<N> = Vec::new();
        if readiness.readable {
            core::mem::swap(&mut fired_read, &mut r.read_waitings);
        }
        let mut fired_write: Vec<N> = Vec::new();
        if readiness.writable {
            core::mem::swap(&mut fired_write, &mut r.write_waitings);
        }
        let rearm = r.rearm(token);
        self.registrants.insert(token, r);
        proof {
            assert(final(self).registrants@.dom() =~= old(self).registrants@.dom());
        }
        EventOutcome { fired_read, fired_write, rearm }
    }
}

/// The candidate the token allocator tries `i` steps after `start`, with one
/// wrap back to zero past `usize::MAX`.
pub open spec fn nth_candidate(start: usize, i: int) -> usize {
    if start + i <= usize::MAX {
        (start + i) as usize
    } else {
        (start + i - usize::MAX - 1) as usize
    }
}

/// Candidates at two different steps within one wrap differ.
proof fn lemma_candidates_distinct(start: usize, i: int, j: int)
    requires
        0 <= i < j <= usize::MAX,
    ensures
        nth_candidate(start, i) != nth_candidate(start, j),
{
}

/// Extending the allocator's scan by one more live candidate keeps the scan
/// duplicate-free, so the scan stays no longer than the registrant map.
proof fn lemma_scan_extends(dom: Set<usize>, start: usize, scanned: Seq<usize>, token: usize)
    requires
        dom.finite(),
        scanned.len() <= dom.len(),
        scanned.len() <= usize::MAX,
        token == nth_candidate(start, scanned.len() as int),
        dom.contains(token),
        forall|j: int| 0 <= j < scanned.len() ==> scanned[j] == nth_candidate(start, j),
        forall|j: int| 0 <= j < scanned.len() ==> dom.contains(scanned[j]),
    ensures
        scanned.push(token).len() <= dom.len(),
        forall|j: int|
            0 <= j < scanned.push(token).len() ==> scanned.push(token)[j] == nth_candidate(
                start,
                j,
            ),
        forall|j: int| 0 <= j < scanned.push(token).len() ==> dom.contains(scanned.push(token)[j]),
{
    let ext = scanned.push(token);
    assert forall|j1: int, j2: int| 0 <= j1 < j2 < ext.len() implies ext[j1] != ext[j2] by {
        lemma_candidates_distinct(start, j1, j2);
    }
    assert(ext.no_duplicates());
    ext.unique_seq_to_set();
    assert forall|x: usize| ext.to_set().contains(x) implies dom.contains(x) by {
        let j = choose|j: int| 0 <= j < ext.len() && ext[j] == x;
        assert(dom.contains(ext[j]));
    }
    assert(ext.to_set().subset_of(dom));
    vstd::set_lib::lemma_len_subset(ext.to_set(), dom);
}

/// What registering a resource does: a token that was not live is bound to a
/// fresh registrant owning the resource, never yet registered with the OS
/// facility and with no waiters; every other registrant is untouched.
pub open spec fn register_post<E, N>(
    pre: Poller<E, N>,
    post: Poller<E, N>,
    evented: E,
    token: usize,
) -> bool {
    &&& !pre.registrants@.contains_key(token)
    &&& post.registrants@.dom() == pre.registrants@.dom().insert(token)
    &&& post.registrants@[token].evented == evented
    &&& post.registrants@[token].is_first
    &&& post.registrants@[token].read_waitings@ == Seq::<N>::empty()
    &&& post.registrants@[token].write_waitings@ == Seq::<N>::empty()
    &&& forall|t: usize|
        t != token && pre.registrants@.contains_key(t) ==> post.registrants@[t]
            == pre.registrants@[t]
    &&& post.events_capacity == pre.events_capacity
}

/// What deregistering a live token does: its registrant leaves the map, the
/// resource is handed back, and the OS facility must be told exactly when
/// the resource had ever been registered there; everything else is
/// untouched.
pub open spec fn deregister_post<E, N>(
    pre: Poller<E, N>,
    post: Poller<E, N>,
    token: usize,
    evented: E,
    os_deregister: bool,
) -> bool {
    &&& pre.registrants@.contains_key(token)
    &&& post.registrants@ == pre.registrants@.remove(token)
    &&& evented == pre.registrants@[token].evented
    &&& os_deregister == !pre.registrants@[token].is_first
    &&& post.next_token == pre.next_token
    &&& post.events_capacity == pre.events_capacity
}

/// What a monitor request does: the notifier joins the back of the addressed
/// direction's queue; the OS facility is asked for exactly one (re)arm call
/// when that queue crossed the empty-to-non-empty edge, and for none when
/// the direction already had a waiter; every other registrant is untouched.
pub open spec fn monitor_post<E, N>(
    pre: Poller<E, N>,
    post: Poller<E, N>,
    token: usize,
    interest: Interest,
    notifier: N,
    arm: Option<Arm>,
) -> bool {
    let r_pre = pre.registrants@[token];
    let r_post = post.registrants@[token];
    &&& pre.registrants@.contains_key(token)
    &&& post.registrants@.dom() == pre.registrants@.dom()
    &&& forall|t: usize|
        t != token && pre.registrants@.contains_key(t) ==> post.registrants@[t]
            == pre.registrants@[t]
    &&& r_post.evented == r_pre.evented
    &&& r_post.waiters(interest) == r_pre.waiters(interest).push(notifier)
    &&& r_post.waiters(other_interest(interest)) == r_pre.waiters(other_interest(interest))
    &&& (arm is Some) == (r_pre.waiters(interest).len() == 0)
    &&& match arm {
        Some(a) => {
            &&& a == Arm { token, first: r_pre.is_first, interest: r_post.interest_spec() }
            &&& !r_post.is_first
        },
        None => r_post.is_first == r_pre.is_first,
    }
    &&& post.next_token == pre.next_token
    &&& post.events_capacity == pre.events_capacity
}

/// The opposite direction.
pub open spec fn other_interest(interest: Interest) -> Interest {
    match interest {
        Interest::Read => Interest::Write,
        Interest::Write => Interest::Read,
    }
}

/// Ties each request variant to its reply and its transition.
pub open spec fn request_post<E, N>(
    pre: Poller<E, N>,
    post: Poller<E, N>,
    request: Request<E, N>,
    out: Outcome<E>,
) -> bool {
    match request {
        Request::Register(evented) => match out {
            Outcome::Registered(token) => register_post(pre, post, evented, token),
            _ => false,
        },
        Request::Deregister(token) => match out {
            Outcome::Deregistered(evented, os_deregister) => deregister_post(
                pre,
                post,
                token,
                evented,
                os_deregister,
            ),
            _ => false,
        },
        Request::Monitor(token, interest, notifier) => match out {
            Outcome::Monitored(arm) => monitor_post(pre, post, token, interest, notifier, arm),
            _ => false,
        },
        _ => false,
    }
}

/// What one readiness event does: each reported direction's queue is drained
/// into the fired sequence in arrival order (a direction not reported keeps
/// its queue and fires nothing), and the registrant is re-armed exactly when
/// interest remains after the drain; every other registrant is untouched.
pub open spec fn event_post<E, N>(
    pre: Poller<E, N>,
    post: Poller<E, N>,
    token: usize,
    readiness: Readiness,
    out: EventOutcome<N>,
) -> bool {
    let r_pre = pre.registrants@[token];
    let r_post = post.registrants@[token];
    &&& pre.registrants@.contains_key(token)
    &&& post.registrants@.dom() == pre.registrants@.dom()
    &&& forall|t: usize|
        t != token && pre.registrants@.contains_key(t) ==> post.registrants@[t]
            == pre.registrants@[t]
    &&& r_post.evented == r_pre.evented
    &&& if readiness.readable {
        out.fired_read@ == r_pre.read_waitings@ && r_post.read_waitings@ == Seq::<N>::empty()
    } else {
        out.fired_read@ == Seq::<N>::empty() && r_post.read_waitings@ == r_pre.read_waitings@
    }
    &&& if readiness.writable {
        out.fired_write@ == r_pre.write_waitings@ && r_post.write_waitings@ == Seq::<N>::empty()
    } else {
        out.fired_write@ == Seq::<N>::empty() && r_post.write_waitings@ == r_pre.write_waitings@
    }
    &&& if r_post.interest_spec().is_empty_spec() {
        out.rearm is None && r_post.is_first == r_pre.is_first
    } else {
        &&& out.rearm == Some(
            Arm { token, first: r_pre.is_first, interest: r_post.interest_spec() },
        )
        &&& !r_post.is_first
    }
    &&& post.next_token == pre.next_token
    &&& post.events_capacity == pre.events_capacity
}

} // verus!
