//! End-to-end scenarios: the verified reactor core drives a real mio poll,
//! with user-space registrations as the resources and mpsc senders as the
//! one-shot notifiers.

use std::sync::mpsc;
use std::time::{Duration, Instant};

use mio::{Events, Poll, PollOpt, Ready, Registration, Token};

use reactor_core::poller::{Arm, Interest, Outcome, Poller, Readiness, Request};
use reactor_core::handle::EventedHandle;

type Core = Poller<Registration, mpsc::Sender<()>>;

fn mio_ready(r: Readiness) -> Ready {
    (if r.readable { Ready::readable() } else { Ready::empty() })
        | (if r.writable { Ready::writable() } else { Ready::empty() })
}

/// Performs one facility call the core asked for.
fn perform_arm(core: &Core, poll: &Poll, arm: Arm) {
    let registrant = core.registrants.get(&arm.token).expect("armed token must be live");
    let opts = PollOpt::edge() | PollOpt::oneshot();
    if arm.first {
        poll.register(&registrant.evented, Token(arm.token), mio_ready(arm.interest), opts)
            .expect("register with the facility");
    } else {
        poll.reregister(&registrant.evented, Token(arm.token), mio_ready(arm.interest), opts)
            .expect("reregister with the facility");
    }
}

fn submit(core: &mut Core, poll: &Poll, request: Request<Registration, mpsc::Sender<()>>) -> Outcome<Registration> {
    // A driver must uphold what the verified core requires, and abort loudly
    // otherwise: an unknown token is a broken invariant.
    match &request {
        Request::Deregister(token) => assert!(core.contains_token(*token)),
        Request::Monitor(token, _, _) => assert!(core.contains_token(*token)),
        Request::Register(_) => {}
        _ => panic!("reserved request entries are not part of the protocol yet"),
    }
    let out = core.handle_request(request);
    match &out {
        Outcome::Monitored(Some(arm)) => perform_arm(core, poll, *arm),
        Outcome::Deregistered(evented, true) => {
            poll.deregister(evented).expect("deregister from the facility");
        }
        _ => {}
    }
    out
}

/// Runs poll iterations until the deadline, handing each observed event to
/// the core and firing the notifiers it returns.
fn drive(core: &mut Core, poll: &Poll, deadline: Duration) {
    let start = Instant::now();
    let mut events = Events::with_capacity(core.events_capacity);
    while start.elapsed() < deadline {
        poll.poll(&mut events, Some(Duration::from_millis(10)))
            .expect("the facility wait must not fail");
        for event in events.iter() {
            let token = event.token().0;
            assert!(core.contains_token(token), "facility reported an unknown token");
            let readiness = Readiness {
                readable: event.readiness().is_readable(),
                writable: event.readiness().is_writable(),
            };
            let fired = core.handle_event(token, readiness);
            for tx in fired.fired_read {
                let _ = tx.send(());
            }
            for tx in fired.fired_write {
                let _ = tx.send(());
            }
            if let Some(arm) = fired.rearm {
                perform_arm(core, poll, arm);
            }
        }
    }
}

#[test]
fn empty_drive_returns_after_the_timeout() {
    let mut core: Core = Poller::new();
    let poll = Poll::new().expect("create the facility");
    let mut events = Events::with_capacity(core.events_capacity);
    let timeout = core.poll_timeout(false, Some(60));
    let start = Instant::now();
    let n = poll
        .poll(&mut events, timeout.map(Duration::from_millis))
        .expect("an idle wait must succeed");
    assert_eq!(n, 0);
    assert!(events.iter().next().is_none());
    assert!(start.elapsed() >= Duration::from_millis(50));
    assert_eq!(core.registrant_count(), 0);
}

#[test]
fn readable_monitor_resolves_and_drop_deregisters() {
    let mut core: Core = Poller::new();
    let poll = Poll::new().expect("create the facility");

    let (registration, set_readiness) = Registration::new2();
    let token = match submit(&mut core, &poll, Request::Register(registration)) {
        Outcome::Registered(token) => token,
        _ => panic!("register must reply with a token"),
    };
    let handle = EventedHandle::new(token);

    let (tx, rx) = mpsc::channel::<()>();
    submit(&mut core, &poll, handle.monitor(Interest::Read, tx));
    assert!(rx.try_recv().is_err(), "nothing is readable yet");

    // An external writer makes the resource readable.
    set_readiness.set_readiness(Ready::readable()).expect("set readiness");
    drive(&mut core, &poll, Duration::from_millis(500));
    assert_eq!(rx.try_recv(), Ok(()), "the monitor must resolve from the event");

    // Dropping the last handle issues exactly one deregister for the token.
    let mut clone = handle;
    clone.acquire();
    assert!(!clone.release(), "a non-final drop must not deregister");
    assert!(clone.release(), "the final drop must deregister");
    match submit(&mut core, &poll, clone.deregister_request()) {
        Outcome::Deregistered(_, os_deregister) => assert!(os_deregister),
        _ => panic!("deregister must hand the resource back"),
    }
    assert_eq!(core.registrant_count(), 0);
    assert!(!core.contains_token(token));
}

#[test]
fn writable_event_leaves_the_read_monitor_pending() {
    let mut core: Core = Poller::new();
    let poll = Poll::new().expect("create the facility");

    let (registration, set_readiness) = Registration::new2();
    let token = match submit(&mut core, &poll, Request::Register(registration)) {
        Outcome::Registered(token) => token,
        _ => panic!("register must reply with a token"),
    };
    let handle = EventedHandle::new(token);

    let (tx_r, rx_r) = mpsc::channel::<()>();
    let (tx_w, rx_w) = mpsc::channel::<()>();
    submit(&mut core, &poll, handle.monitor(Interest::Read, tx_r));
    submit(&mut core, &poll, handle.monitor(Interest::Write, tx_w));

    // Only the writable condition becomes true.
    set_readiness.set_readiness(Ready::writable()).expect("set readiness");
    drive(&mut core, &poll, Duration::from_millis(500));

    assert_eq!(rx_w.try_recv(), Ok(()), "the write-side monitor must resolve");
    assert!(rx_r.try_recv().is_err(), "the read-side monitor must stay pending");
    let registrant = core.registrants.get(&token).expect("still registered");
    assert_eq!(registrant.read_waitings.len(), 1);
    assert_eq!(registrant.write_waitings.len(), 0);
}
