//! The address-level face of the protocol: fire-and-forget enqueueing.
//!
//! An address is an opaque handle on an actor's inbound mailbox. The only
//! operation the protocol needs from it is "enqueue one message, no reply,
//! no blocking"; [`AddrSignalExt`] adds the two signal operations on top of
//! that. Delivery timing, and whether the actor is still there to be
//! delivered to, stay with the runtime: a signal sent to an actor that is
//! already gone is silently discarded at delivery, never an error.

use vstd::prelude::*;

use crate::signals::Signal;
use crate::signals::StopSignal;
use crate::signals::TerminateSignal;

verus! {

/// An address: the sender-side handle on one actor's inbound mailbox.
///
/// Enqueued messages sit in `queue` in per-sender FIFO order until the
/// runtime delivers them (see [`ActorHarness`](crate::ActorHarness)).
pub struct Addr {
    pub queue: Vec<Signal>,
}

impl Addr {
    /// The address of a freshly started actor: nothing enqueued yet.
    pub fn new() -> (a: Addr)
        ensures
            a.queue@ == Seq::<Signal>::empty(),
    {
        Addr { queue: Vec::new() }
    }

    /// Fire-and-forget enqueue of one message: the raw runtime send
    /// operation, usable directly with a wrapped signal as an escape hatch.
    /// It never blocks and reports nothing back.
    pub fn do_send(&mut self, msg: Signal)
        ensures
            final(self).queue@ == old(self).queue@.push(msg),
    {
        self.queue.push(msg);
    }
}

/// The extension that turns "I want this actor to stop" into "a message is
/// enqueued": available exactly where the actor handles both signal kinds
/// and its context routes them (see the bounds on
/// [`ActorHarness`](crate::ActorHarness)).
pub trait AddrSignalExt {
    /// What this address has enqueued, oldest first.
    spec fn pending(&self) -> Seq<Signal>;

    /// Ask the target actor to stop gracefully: enqueues exactly one `Stop`
    /// message and returns at once.
    ///
    /// This should have the same eventual effect as
    /// [`SignalContext::stop`](crate::SignalContext::stop), delayed until the
    /// runtime delivers the message.
    fn stop(&mut self)
        ensures
            final(self).pending() == old(self).pending().push(Signal::Stop),
    ;

    /// Ask the target actor to terminate at once: enqueues exactly one
    /// `Terminate` message and returns at once.
    ///
    /// This should have the same eventual effect as
    /// [`SignalContext::terminate`](crate::SignalContext::terminate), delayed
    /// until the runtime delivers the message.
    fn terminate(&mut self)
        ensures
            final(self).pending() == old(self).pending().push(Signal::Terminate),
    ;
}

impl AddrSignalExt for Addr {
    open spec fn pending(&self) -> Seq<Signal> {
        self.queue@
    }

    fn stop(&mut self) {
        self.do_send(StopSignal.envelope());
    }

    fn terminate(&mut self) {
        self.do_send(TerminateSignal.envelope());
    }
}

} // verus!
