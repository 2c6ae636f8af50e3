//! A model of the lifecycle-relevant face of an actor's execution context.
//!
//! The surrounding runtime owns scheduling and mailboxes; the only part of it
//! this protocol touches is the pair of lifecycle primitives an actor may
//! invoke on its own execution context. [`SignalContext`] models exactly that
//! face: the actor's lifecycle state together with a count of how often each
//! primitive has been invoked, so that contracts can say "invoked exactly
//! once".

use vstd::prelude::*;

verus! {

/// The lifecycle state of an actor, as the runtime tracks it.
///
/// `Stopped` is only reached over the graceful path (`Stopping` first, with
/// the shutdown hooks run); `Terminated` is the immediate transition that
/// bypasses those hooks. The two outcomes stay distinguishable.
#[derive(Debug, Copy, Clone, PartialEq, Eq, Structural)]
pub enum ActorState {
    /// The actor processes mailbox messages.
    Running,
    /// A graceful stop was requested; queued messages are still delivered.
    Stopping,
    /// The actor became unavailable over the graceful path.
    Stopped,
    /// The actor became unavailable at once, hooks bypassed.
    Terminated,
}

/// The mathematical view of a [`SignalContext`]: the state plus unbounded
/// invocation counts for the two lifecycle primitives.
pub struct CtxModel {
    pub state: ActorState,
    pub stops: nat,
    pub terminates: nat,
}

impl CtxModel {
    /// A live actor still takes deliveries: it is running, or stopping
    /// gracefully but not yet gone.
    pub open spec fn live(self) -> bool {
        self.state == ActorState::Running || self.state == ActorState::Stopping
    }

    /// Effect of the graceful-stop primitive: a live actor moves to
    /// `Stopping` (and stays there if already stopping); the invocation is
    /// counted either way.
    pub open spec fn after_stop(self) -> CtxModel {
        CtxModel {
            state: if self.live() {
                ActorState::Stopping
            } else {
                self.state
            },
            stops: self.stops + 1,
            terminates: self.terminates,
        }
    }

    /// Effect of the immediate-terminate primitive: a live actor becomes
    /// `Terminated` at once, even if a graceful stop was already pending.
    pub open spec fn after_terminate(self) -> CtxModel {
        CtxModel {
            state: if self.live() {
                ActorState::Terminated
            } else {
                self.state
            },
            stops: self.stops,
            terminates: self.terminates + 1,
        }
    }

    /// The context of a freshly started actor.
    pub open spec fn initial() -> CtxModel {
        CtxModel { state: ActorState::Running, stops: 0, terminates: 0 }
    }
}

/// The lifecycle face of an actor's own execution context.
///
/// The two methods are the runtime's lifecycle primitives; they are only ever
/// invoked from within the actor's own processing turn (here: by signal
/// handlers), never by the sender of a signal.
pub struct SignalContext {
    pub state: ActorState,
    pub stop_requests: u64,
    pub terminate_requests: u64,
}

impl SignalContext {
    /// The mathematical view of this context.
    pub open spec fn model(&self) -> CtxModel {
        CtxModel {
            state: self.state,
            stops: self.stop_requests as nat,
            terminates: self.terminate_requests as nat,
        }
    }

    /// The context of a freshly started actor: running, no primitive invoked.
    pub fn new() -> (c: SignalContext)
        ensures
            c.model() == CtxModel::initial(),
    {
        SignalContext { state: ActorState::Running, stop_requests: 0, terminate_requests: 0 }
    }

    /// The graceful-stop primitive: request that this actor stop once its
    /// pending work is acknowledged, letting the shutdown hooks run.
    pub fn stop(&mut self)
        requires
            old(self).stop_requests < u64::MAX,
        ensures
            final(self).model() == old(self).model().after_stop(),
    {
        match self.state {
            ActorState::Running | ActorState::Stopping => {
                self.state = ActorState::Stopping;
            },
            _ => {},
        }
        self.stop_requests = self.stop_requests + 1;
    }

    /// The immediate-terminate primitive: make this actor unavailable as soon
    /// as the runtime processes the request, bypassing the graceful hooks.
    pub fn terminate(&mut self)
        requires
            old(self).terminate_requests < u64::MAX,
        ensures
            final(self).model() == old(self).model().after_terminate(),
    {
        match self.state {
            ActorState::Running | ActorState::Stopping => {
                self.state = ActorState::Terminated;
            },
            _ => {},
        }
        self.terminate_requests = self.terminate_requests + 1;
    }
}

} // verus!
