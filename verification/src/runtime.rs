//! A model of the runtime machinery the protocol leans on: FIFO delivery of
//! the enqueued signals to the actor, followed by the runtime's own
//! quiescence step that runs the graceful shutdown hook.
//!
//! The spec functions [`deliver_one`], [`deliver_all`] and [`settle`] are the
//! mathematical model; [`ActorHarness`] is the executable counterpart, whose
//! contract says that draining a mailbox computes exactly [`run`] of the
//! enqueued signals. The proof functions state the guarantees of the
//! protocol over that model.

use vstd::prelude::*;

use crate::addr::Addr;
use crate::lifecycle::ActorState;
use crate::lifecycle::CtxModel;
use crate::lifecycle::SignalContext;
use crate::signals::Signal;
use crate::SignalHandler;
use crate::ToSignalEnvelope;

verus! {

/// Everything observable about one actor's lifecycle run: its context model,
/// the signals the actor observed (in delivery order), and how often the
/// graceful shutdown hook has run.
pub struct RunState {
    pub ctx: CtxModel,
    pub observed: Seq<Signal>,
    pub stopping_hooks: nat,
}

impl RunState {
    /// The run state of a freshly started actor.
    pub open spec fn initial() -> RunState {
        RunState { ctx: CtxModel::initial(), observed: Seq::empty(), stopping_hooks: 0 }
    }
}

/// The lifecycle effect of routing one signal kind through the context.
pub open spec fn route_effect(c: CtxModel, s: Signal) -> CtxModel {
    match s {
        Signal::Stop => c.after_stop(),
        Signal::Terminate => c.after_terminate(),
    }
}

/// Delivery of one message: a live actor observes it and its handler invokes
/// the corresponding primitive; a message reaching an actor that is already
/// gone is silently discarded.
pub open spec fn deliver_one(m: RunState, s: Signal) -> RunState {
    if m.ctx.live() {
        RunState {
            ctx: route_effect(m.ctx, s),
            observed: m.observed.push(s),
            stopping_hooks: m.stopping_hooks,
        }
    } else {
        m
    }
}

/// FIFO delivery of a whole queue, oldest message first.
pub open spec fn deliver_all(m: RunState, q: Seq<Signal>) -> RunState
    decreases q.len(),
{
    if q.len() == 0 {
        m
    } else {
        deliver_all(deliver_one(m, q.first()), q.drop_first())
    }
}

/// The runtime's quiescence step once the mailbox is drained: an actor that
/// was asked to stop gracefully now runs its shutdown hook and becomes
/// `Stopped`. A terminated actor bypassed that hook and stays `Terminated`.
pub open spec fn settle(m: RunState) -> RunState {
    if m.ctx.state == ActorState::Stopping {
        RunState {
            ctx: CtxModel {
                state: ActorState::Stopped,
                stops: m.ctx.stops,
                terminates: m.ctx.terminates,
            },
            observed: m.observed,
            stopping_hooks: m.stopping_hooks + 1,
        }
    } else {
        m
    }
}

/// A full scheduling round: deliver everything enqueued, then settle.
pub open spec fn run(m: RunState, q: Seq<Signal>) -> RunState {
    settle(deliver_all(m, q))
}

/// How many messages of kind `s` a queue holds.
pub open spec fn count_signal(q: Seq<Signal>, s: Signal) -> nat
    decreases q.len(),
{
    if q.len() == 0 {
        0
    } else {
        (if q.first() == s {
            1nat
        } else {
            0nat
        }) + count_signal(q.drop_first(), s)
    }
}

proof fn lemma_count_signal_push(q: Seq<Signal>, t: Signal, s: Signal)
    ensures
        count_signal(q.push(t), s) == count_signal(q, s) + (if t == s {
            1nat
        } else {
            0nat
        }),
    decreases q.len(),
{
    reveal_with_fuel(count_signal, 3);
    if q.len() == 0 {
        assert(q.push(t).first() == t);
        assert(q.push(t).drop_first() =~= Seq::<Signal>::empty());
    } else {
        assert(q.push(t).first() == q.first());
        assert(q.push(t).drop_first() =~= q.drop_first().push(t));
        lemma_count_signal_push(q.drop_first(), t, s);
    }
}

proof fn lemma_count_signal_le_len(q: Seq<Signal>, s: Signal)
    ensures
        count_signal(q, s) <= q.len(),
    decreases q.len(),
{
    if q.len() > 0 {
        lemma_count_signal_le_len(q.drop_first(), s);
    }
}

proof fn lemma_deliver_all_snoc(m: RunState, q: Seq<Signal>, s: Signal)
    ensures
        deliver_all(m, q.push(s)) == deliver_one(deliver_all(m, q), s),
    decreases q.len(),
{
    reveal_with_fuel(deliver_all, 3);
    if q.len() == 0 {
        assert(q.push(s).first() == s);
        assert(q.push(s).drop_first() =~= Seq::<Signal>::empty());
    } else {
        assert(q.push(s).first() == q.first());
        assert(q.push(s).drop_first() =~= q.drop_first().push(s));
        lemma_deliver_all_snoc(deliver_one(m, q.first()), q.drop_first(), s);
    }
}

/// Delivery never invokes a primitive more often than a message of its kind
/// was enqueued, and the shutdown hook never runs during delivery.
pub proof fn lemma_at_most_one_invocation_per_send(m: RunState, q: Seq<Signal>)
    ensures
        deliver_all(m, q).ctx.stops <= m.ctx.stops + count_signal(q, Signal::Stop),
        deliver_all(m, q).ctx.terminates <= m.ctx.terminates + count_signal(q, Signal::Terminate),
        deliver_all(m, q).stopping_hooks == m.stopping_hooks,
        deliver_all(m, q).observed.len() <= m.observed.len() + q.len(),
    decreases q.len(),
{
    if q.len() > 0 {
        lemma_at_most_one_invocation_per_send(deliver_one(m, q.first()), q.drop_first());
    }
}

/// Each primitive is invoked exactly once per delivered message of its kind:
/// over any run, an invocation count grows by exactly the number of messages
/// of that kind the actor observed.
pub proof fn lemma_invocations_match_observations(m: RunState, q: Seq<Signal>)
    ensures
        deliver_all(m, q).ctx.stops + count_signal(m.observed, Signal::Stop) == m.ctx.stops
            + count_signal(deliver_all(m, q).observed, Signal::Stop),
        deliver_all(m, q).ctx.terminates + count_signal(m.observed, Signal::Terminate)
            == m.ctx.terminates + count_signal(deliver_all(m, q).observed, Signal::Terminate),
    decreases q.len(),
{
    if q.len() > 0 {
        let s = q.first();
        if m.ctx.live() {
            lemma_count_signal_push(m.observed, s, Signal::Stop);
            lemma_count_signal_push(m.observed, s, Signal::Terminate);
        }
        lemma_invocations_match_observations(deliver_one(m, s), q.drop_first());
    }
}

/// Signals reaching an actor that is already gone have no observable effect:
/// they are silently discarded, and no error arises.
pub proof fn lemma_dead_actor_unaffected(m: RunState, q: Seq<Signal>)
    requires
        !m.ctx.live(),
    ensures
        run(m, q) == m,
        deliver_all(m, q) == m,
    decreases q.len(),
{
    if q.len() > 0 {
        lemma_dead_actor_unaffected(m, q.drop_first());
    }
}

/// Graceful path: one `stop()` and enough scheduling progress invoke the
/// graceful-stop primitive exactly once, run the shutdown hook, and leave the
/// actor `Stopped`.
pub proof fn lemma_stop_scenario(m: RunState)
    requires
        m.ctx.state == ActorState::Running,
    ensures
        ({
            let f = run(m, seq![Signal::Stop]);
            &&& f.ctx.state == ActorState::Stopped
            &&& f.ctx.stops == m.ctx.stops + 1
            &&& f.ctx.terminates == m.ctx.terminates
            &&& f.stopping_hooks == m.stopping_hooks + 1
            &&& f.observed == m.observed.push(Signal::Stop)
        }),
{
    reveal_with_fuel(deliver_all, 3);
    let q = seq![Signal::Stop];
    assert(q.first() == Signal::Stop);
    assert(q.drop_first() =~= Seq::<Signal>::empty());
    assert(deliver_all(m, q) == deliver_one(m, Signal::Stop));
}

/// Immediate path: one `terminate()` invokes the immediate-terminate
/// primitive exactly once and bypasses the graceful shutdown hook; the actor
/// ends `Terminated`, distinguishable from the graceful outcome.
pub proof fn lemma_terminate_scenario(m: RunState)
    requires
        m.ctx.state == ActorState::Running,
    ensures
        ({
            let f = run(m, seq![Signal::Terminate]);
            &&& f.ctx.state == ActorState::Terminated
            &&& f.ctx.terminates == m.ctx.terminates + 1
            &&& f.ctx.stops == m.ctx.stops
            &&& f.stopping_hooks == m.stopping_hooks
            &&& f.observed == m.observed.push(Signal::Terminate)
        }),
{
    reveal_with_fuel(deliver_all, 3);
    let q = seq![Signal::Terminate];
    assert(q.first() == Signal::Terminate);
    assert(q.drop_first() =~= Seq::<Signal>::empty());
    assert(deliver_all(m, q) == deliver_one(m, Signal::Terminate));
}

/// Idempotence: two `stop()` calls on a still-live actor invoke the graceful
/// primitive once per delivered message — no crash, no doubled shutdown — and
/// the actor still stops gracefully exactly once.
pub proof fn lemma_stop_twice_scenario(m: RunState)
    requires
        m.ctx.live(),
    ensures
        ({
            let f = run(m, seq![Signal::Stop, Signal::Stop]);
            &&& f.ctx.state == ActorState::Stopped
            &&& f.ctx.stops == m.ctx.stops + 2
            &&& f.stopping_hooks == m.stopping_hooks + 1
            &&& f.observed == m.observed.push(Signal::Stop).push(Signal::Stop)
        }),
{
    reveal_with_fuel(deliver_all, 4);
    let q = seq![Signal::Stop, Signal::Stop];
    let m1 = deliver_one(m, Signal::Stop);
    assert(q.first() == Signal::Stop);
    assert(q.drop_first() =~= seq![Signal::Stop]);
    assert(q.drop_first().first() == Signal::Stop);
    assert(q.drop_first().drop_first() =~= Seq::<Signal>::empty());
    assert(deliver_all(m, q) == deliver_one(m1, Signal::Stop));
}

/// Ordering: a single caller issuing `stop()` then `terminate()` has the
/// actor observe `Stop` strictly before `Terminate`; the later `Terminate`
/// overrides the pending graceful stop, so the actor ends `Terminated` with
/// the graceful hook bypassed.
pub proof fn lemma_stop_then_terminate_scenario(m: RunState)
    requires
        m.ctx.state == ActorState::Running,
    ensures
        ({
            let f = run(m, seq![Signal::Stop, Signal::Terminate]);
            &&& f.ctx.state == ActorState::Terminated
            &&& f.ctx.stops == m.ctx.stops + 1
            &&& f.ctx.terminates == m.ctx.terminates + 1
            &&& f.stopping_hooks == m.stopping_hooks
            &&& f.observed == m.observed.push(Signal::Stop).push(Signal::Terminate)
        }),
{
    reveal_with_fuel(deliver_all, 4);
    let q = seq![Signal::Stop, Signal::Terminate];
    let m1 = deliver_one(m, Signal::Stop);
    assert(q.first() == Signal::Stop);
    assert(q.drop_first() =~= seq![Signal::Terminate]);
    assert(q.drop_first().first() == Signal::Terminate);
    assert(q.drop_first().drop_first() =~= Seq::<Signal>::empty());
    assert(deliver_all(m, q) == deliver_one(m1, Signal::Terminate));
}

/// One actor wired to the runtime model: the actor, its execution context,
/// the address holding its inbound mailbox, and the runtime's bookkeeping of
/// what was delivered and which hooks ran.
pub struct ActorHarness<A: SignalHandler> {
    pub actor: A,
    pub ctx: SignalContext,
    pub addr: Addr,
    pub observed: Vec<Signal>,
    pub stopping_hook_runs: u64,
}

impl<A: SignalHandler> ActorHarness<A> {
    /// The mathematical view of this harness, mailbox aside.
    pub open spec fn run_state(&self) -> RunState {
        RunState {
            ctx: self.ctx.model(),
            observed: self.observed@,
            stopping_hooks: self.stopping_hook_runs as nat,
        }
    }

    /// Start an actor: it is running, nothing is enqueued, nothing was
    /// delivered yet.
    pub fn start(actor: A) -> (h: ActorHarness<A>)
        ensures
            h.run_state() == RunState::initial(),
            h.addr.queue@ == Seq::<Signal>::empty(),
    {
        ActorHarness {
            actor,
            ctx: SignalContext::new(),
            addr: Addr::new(),
            observed: Vec::new(),
            stopping_hook_runs: 0,
        }
    }

    /// Give the runtime enough scheduling progress to drain the mailbox and
    /// settle: every enqueued signal is delivered in FIFO order (discarded if
    /// the actor is gone by then), and an actor left gracefully stopping runs
    /// its shutdown hook. The outcome is exactly the model's [`run`].
    pub fn run_until_settled(&mut self)
        requires
            old(self).run_state().ctx.stops + old(self).addr.queue@.len() <= u64::MAX,
            old(self).run_state().ctx.terminates + old(self).addr.queue@.len() <= u64::MAX,
            old(self).stopping_hook_runs < u64::MAX,
        ensures
            final(self).addr.queue@ == Seq::<Signal>::empty(),
            final(self).run_state() == run(old(self).run_state(), old(self).addr.queue@),
    {
        let ghost m0 = self.run_state();
        let ghost q0 = self.addr.queue@;
        let ghost mut k: int = 0;
        while self.addr.queue.len() != 0
            invariant
                0 <= k <= q0.len(),
                self.addr.queue@ =~= q0.skip(k),
                self.run_state() == deliver_all(m0, q0.take(k)),
                m0.ctx.stops + q0.len() <= u64::MAX,
                m0.ctx.terminates + q0.len() <= u64::MAX,
            decreases self.addr.queue.len(),
        {
            let s = self.addr.queue.remove(0);
            proof {
                assert(q0.skip(k).first() == q0[k]);
                assert(q0.skip(k).drop_first() =~= q0.skip(k + 1));
                lemma_at_most_one_invocation_per_send(m0, q0.take(k));
                lemma_count_signal_le_len(q0.take(k), Signal::Stop);
                lemma_count_signal_le_len(q0.take(k), Signal::Terminate);
            }
            let live = matches!(self.ctx.state, ActorState::Running | ActorState::Stopping);
            if live {
                self.observed.push(s);
                match s {
                    Signal::Stop => self.ctx.route_stop(&mut self.actor),
                    Signal::Terminate => self.ctx.route_terminate(&mut self.actor),
                }
            }
            proof {
                lemma_deliver_all_snoc(m0, q0.take(k), q0[k]);
                assert(q0.take(k + 1) =~= q0.take(k).push(q0[k]));
                k = k + 1;
            }
        }
        proof {
            assert(q0.take(k) =~= q0);
            lemma_at_most_one_invocation_per_send(m0, q0);
        }
        let stopping = matches!(self.ctx.state, ActorState::Stopping);
        if stopping {
            self.stopping_hook_runs = self.stopping_hook_runs + 1;
            self.ctx.state = ActorState::Stopped;
        }
    }
}

} // verus!
