//! An out-of-context lifecycle-control protocol for actor runtimes.
//!
//! A holder of an actor's address normally cannot touch the actor's private
//! execution context, so it cannot stop or terminate the actor directly.
//! This crate defines the protocol that closes the gap: two control message
//! kinds ([`StopSignal`], [`TerminateSignal`]), the handler contract an actor
//! must satisfy to take part ([`SignalHandler`]), the matching capability of
//! an execution context to route both kinds ([`ToSignalEnvelope`]), and the
//! address-level operations that enqueue a signal ([`AddrSignalExt`]).
//!
//! The runtime itself — mailbox, scheduler, supervision — stays outside the
//! protocol. Its lifecycle face is modelled by [`SignalContext`] and the
//! delivery machinery by [`ActorHarness`], so that what each piece promises
//! is stated and proved rather than assumed.
//!
//! The standard handler implementations are the default bodies of
//! [`SignalHandler`]: a conforming actor inherits them with an empty `impl`.
//! For runtimes that wire handlers through generated source text instead, the
//! [`codegen`] module emits the equivalent handler implementations for a
//! declared actor type, propagating its generic parameters and bounds.

use vstd::prelude::*;

pub mod addr;
pub mod codegen;
pub mod lifecycle;
pub mod runtime;
pub mod signals;

pub use addr::Addr;
pub use addr::AddrSignalExt;
pub use lifecycle::ActorState;
pub use lifecycle::CtxModel;
pub use lifecycle::SignalContext;
pub use runtime::ActorHarness;
pub use signals::Signal;
pub use signals::StopSignal;
pub use signals::TerminateSignal;

verus! {

/// Actors that are able to handle both control signals.
///
/// An actor satisfies the contract iff its `Stop` handler requests a graceful
/// stop of the actor through its own execution context, and its `Terminate`
/// handler requests immediate termination — each invoking the respective
/// primitive exactly once. The default bodies do exactly that, so a
/// conforming actor needs nothing beyond an empty `impl`; an actor may still
/// supply its own bodies (say, to clean its state up first), as long as the
/// signalled lifecycle effect stays the one promised here.
pub trait SignalHandler {
    /// Handle a [`StopSignal`]: request a graceful stop.
    fn handle_stop(&mut self, ctx: &mut SignalContext)
        requires
            old(ctx).model().stops < u64::MAX,
        ensures
            final(ctx).model() == old(ctx).model().after_stop(),
    {
        ctx.stop();
    }

    /// Handle a [`TerminateSignal`]: request immediate termination.
    fn handle_terminate(&mut self, ctx: &mut SignalContext)
        requires
            old(ctx).model().terminates < u64::MAX,
        ensures
            final(ctx).model() == old(ctx).model().after_terminate(),
    {
        ctx.terminate();
    }
}

/// Execution contexts that are able to deliver both control signals to a
/// given actor type.
///
/// This is the context-side half of the capability: an address only exposes
/// the signal operations when the actor handles both kinds *and* its context
/// can route each kind to it. Routing a signal hands the actor the message
/// of that kind together with the context, and promises the same lifecycle
/// effect as the actor's handler contract.
pub trait ToSignalEnvelope<A> {
    /// The lifecycle-relevant view of this context.
    spec fn lifecycle(&self) -> CtxModel;

    /// Deliver a `Stop` message to the actor through this context.
    fn route_stop(&mut self, actor: &mut A)
        requires
            old(self).lifecycle().stops < u64::MAX,
        ensures
            final(self).lifecycle() == old(self).lifecycle().after_stop(),
    ;

    /// Deliver a `Terminate` message to the actor through this context.
    fn route_terminate(&mut self, actor: &mut A)
        requires
            old(self).lifecycle().terminates < u64::MAX,
        ensures
            final(self).lifecycle() == old(self).lifecycle().after_terminate(),
    ;
}

/// An actor with no state and no custom lifecycle behaviour: it satisfies the
/// handler contract through the inherited default bodies alone.
pub struct DefaultActor;

impl SignalHandler for DefaultActor {
}

/// A generic actor carrying one value, with a nontrivial bound on its
/// parameter: the inherited default handlers apply to generic actors exactly
/// as to plain ones, with the declared bound carried along.
pub struct ValueActor<T: Clone> {
    pub value: T,
}

impl<T: Clone> SignalHandler for ValueActor<T> {
}

/// Any context paired with an actor that handles both signal kinds can route
/// them: delivery simply invokes the actor's handler for the kind.
impl<A: SignalHandler> ToSignalEnvelope<A> for SignalContext {
    open spec fn lifecycle(&self) -> CtxModel {
        self.model()
    }

    fn route_stop(&mut self, actor: &mut A) {
        actor.handle_stop(self);
    }

    fn route_terminate(&mut self, actor: &mut A) {
        actor.handle_terminate(self);
    }
}

} // verus!
