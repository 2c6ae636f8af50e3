use actix_signal::ActorHarness;
use actix_signal::ActorState;
use actix_signal::AddrSignalExt;
use actix_signal::DefaultActor;
use actix_signal::Signal;
use actix_signal::StopSignal;
use actix_signal::TerminateSignal;
use actix_signal::ValueActor;

#[test]
fn test_actor() {
    let mut h = ActorHarness::start(DefaultActor);
    h.addr.stop();
    h.run_until_settled();
    assert_eq!(h.ctx.state, ActorState::Stopped);

    let mut h = ActorHarness::start(DefaultActor);
    h.addr.terminate();
    h.run_until_settled();
    assert_eq!(h.ctx.state, ActorState::Terminated);
}

#[test]
fn test_actor_with_generis() {
    let mut h = ActorHarness::start(ValueActor { value: 7u64 });
    h.addr.stop();
    h.run_until_settled();
    assert_eq!(h.ctx.state, ActorState::Stopped);
    assert_eq!(h.actor.value, 7);
}

#[test]
fn test_actor_state() {
    let mut h = ActorHarness::start(DefaultActor);
    h.addr.stop();
    h.run_until_settled();
    assert_eq!(h.ctx.state, ActorState::Stopped);
    assert_eq!(h.ctx.stop_requests, 1);
    assert_eq!(h.stopping_hook_runs, 1);

    let mut h = ActorHarness::start(DefaultActor);
    h.addr.terminate();
    h.run_until_settled();
    assert_eq!(h.ctx.state, ActorState::Terminated);
    assert_eq!(h.ctx.terminate_requests, 1);
    assert_eq!(h.stopping_hook_runs, 0);
}

#[test]
fn stop_is_delivered_exactly_once() {
    let mut h = ActorHarness::start(DefaultActor);
    h.addr.stop();
    h.run_until_settled();
    assert_eq!(h.ctx.stop_requests, 1);
    assert_eq!(h.ctx.terminate_requests, 0);
    assert_eq!(h.observed, vec![Signal::Stop]);
}

#[test]
fn terminate_skips_graceful_hook() {
    let mut h = ActorHarness::start(DefaultActor);
    h.addr.terminate();
    h.run_until_settled();
    assert_eq!(h.ctx.terminate_requests, 1);
    assert_eq!(h.ctx.stop_requests, 0);
    assert_eq!(h.stopping_hook_runs, 0);
    assert_eq!(h.observed, vec![Signal::Terminate]);
}

#[test]
fn stop_twice_is_idempotent() {
    let mut h = ActorHarness::start(DefaultActor);
    h.addr.stop();
    h.addr.stop();
    h.run_until_settled();
    assert_eq!(h.ctx.state, ActorState::Stopped);
    assert_eq!(h.ctx.stop_requests, 2);
    assert_eq!(h.stopping_hook_runs, 1);
    assert_eq!(h.observed, vec![Signal::Stop, Signal::Stop]);
}

#[test]
fn stop_after_stopped_has_no_effect() {
    let mut h = ActorHarness::start(DefaultActor);
    h.addr.stop();
    h.run_until_settled();
    assert_eq!(h.ctx.state, ActorState::Stopped);

    h.addr.stop();
    h.run_until_settled();
    assert_eq!(h.ctx.state, ActorState::Stopped);
    assert_eq!(h.ctx.stop_requests, 1);
    assert_eq!(h.stopping_hook_runs, 1);
    assert_eq!(h.observed, vec![Signal::Stop]);
    assert_eq!(h.addr.queue.len(), 0);
}

#[test]
fn stop_then_terminate_observed_in_order() {
    let mut h = ActorHarness::start(DefaultActor);
    h.addr.stop();
    h.addr.terminate();
    assert_eq!(h.addr.queue, vec![Signal::Stop, Signal::Terminate]);
    h.run_until_settled();
    assert_eq!(h.observed, vec![Signal::Stop, Signal::Terminate]);
    assert_eq!(h.ctx.state, ActorState::Terminated);
    assert_eq!(h.ctx.stop_requests, 1);
    assert_eq!(h.ctx.terminate_requests, 1);
    assert_eq!(h.stopping_hook_runs, 0);
}

#[test]
fn terminate_then_stop_discards_late_stop() {
    let mut h = ActorHarness::start(DefaultActor);
    h.addr.terminate();
    h.addr.stop();
    h.run_until_settled();
    assert_eq!(h.ctx.state, ActorState::Terminated);
    assert_eq!(h.observed, vec![Signal::Terminate]);
    assert_eq!(h.ctx.stop_requests, 0);
    assert_eq!(h.ctx.terminate_requests, 1);
}

#[test]
fn raw_send_escape_hatch() {
    assert_eq!(StopSignal.envelope(), Signal::Stop);
    assert_eq!(TerminateSignal.envelope(), Signal::Terminate);

    let mut h = ActorHarness::start(DefaultActor);
    h.addr.do_send(StopSignal.envelope());
    h.run_until_settled();
    assert_eq!(h.ctx.state, ActorState::Stopped);
    assert_eq!(h.ctx.stop_requests, 1);
}
