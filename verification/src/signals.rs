//! The two lifecycle control messages and their dispatch-level kind.
//!
//! Both messages carry no payload and expect no reply; they are told apart
//! only by their kind, so that the runtime can route each one to its own
//! handler on the same actor.

use vstd::prelude::*;

verus! {

/// Asks the actor receiving it to stop gracefully: queued work may still be
/// acknowledged and shutdown hooks run before the actor becomes unavailable.
///
/// Normally sent through [`AddrSignalExt::stop`](crate::AddrSignalExt::stop);
/// it can also be enqueued directly with [`Addr::do_send`](crate::Addr::do_send)
/// as an escape hatch.
#[derive(Debug, Copy, Clone)]
pub struct StopSignal;

/// Asks the actor receiving it to terminate at once, bypassing the graceful
/// shutdown hooks.
///
/// Normally sent through [`AddrSignalExt::terminate`](crate::AddrSignalExt::terminate).
#[derive(Debug, Copy, Clone)]
pub struct TerminateSignal;

/// The kind of a control message, as the mailbox and the dispatch mechanism
/// see it. Exactly two kinds exist and they are never conflated.
#[derive(Debug, Copy, Clone, PartialEq, Eq, Structural)]
pub enum Signal {
    Stop,
    Terminate,
}

impl StopSignal {
    /// Wraps the message for the mailbox: a `StopSignal` is always routed as
    /// the `Stop` kind.
    pub fn envelope(self) -> (k: Signal)
        ensures
            k == Signal::Stop,
    {
        Signal::Stop
    }
}

impl TerminateSignal {
    /// Wraps the message for the mailbox: a `TerminateSignal` is always
    /// routed as the `Terminate` kind.
    pub fn envelope(self) -> (k: Signal)
        ensures
            k == Signal::Terminate,
    {
        Signal::Terminate
    }
}

} // verus!
