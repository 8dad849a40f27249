//! Single-threaded I/O readiness reactor core.
//!
//! The reactor multiplexes many independently owned pollable resources over
//! one OS-level readiness facility used in edge-triggered, one-shot mode.
//! This crate holds the verified heart of that design: the token allocator,
//! the per-resource bookkeeping (`Registrant`), the request-handling and
//! event-handling transitions of the `Poller`, and the reference-counting
//! discipline of the registered-resource capability (`EventedHandle`).
//!
//! The OS facility itself, the cross-thread request channel and the one-shot
//! notification primitive are external collaborators: the reactor core takes
//! received requests and observed readiness as plain values, and hands back
//! the facility calls to make and the notifiers to fire as plain values.

pub mod handle;
pub mod laws;
pub mod poller;
