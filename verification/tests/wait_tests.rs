use ringbus::errors::TryRecvError;
use ringbus::wait::RecvDecision;
use ringbus::wait::TimeoutDecision;
use ringbus::wait::recv_decision;
use ringbus::wait::recv_timeout_decision;
use std::sync::Arc;

#[test]
fn recv_delivers_a_value() {
    let d = recv_decision(Ok(Arc::new(5u64)));
    assert!(matches!(d, RecvDecision::Deliver(v) if *v == 5));
}

#[test]
fn recv_fails_for_good_on_disconnect() {
    let d: RecvDecision<u64> = recv_decision(Err(TryRecvError::Disconnected));
    assert!(matches!(d, RecvDecision::Disconnected));
}

#[test]
fn recv_parks_on_empty() {
    let d: RecvDecision<u64> = recv_decision(Err(TryRecvError::Empty));
    assert!(matches!(d, RecvDecision::Park));
}

#[test]
fn timeout_only_once_budget_is_spent() {
    // A 100 ms budget: an empty poll before the deadline parks for exactly
    // the remaining time; from 100 ms on it times out.
    let d: TimeoutDecision<u64> = recv_timeout_decision(Err(TryRecvError::Empty), 40, 100);
    assert!(matches!(d, TimeoutDecision::ParkFor(60)));
    let d: TimeoutDecision<u64> = recv_timeout_decision(Err(TryRecvError::Empty), 99, 100);
    assert!(matches!(d, TimeoutDecision::ParkFor(1)));
    let d: TimeoutDecision<u64> = recv_timeout_decision(Err(TryRecvError::Empty), 100, 100);
    assert!(matches!(d, TimeoutDecision::TimedOut));
    let d: TimeoutDecision<u64> = recv_timeout_decision(Err(TryRecvError::Empty), 250, 100);
    assert!(matches!(d, TimeoutDecision::TimedOut));
}

#[test]
fn disconnect_wins_over_timeout() {
    let d: TimeoutDecision<u64> = recv_timeout_decision(Err(TryRecvError::Disconnected), 250, 100);
    assert!(matches!(d, TimeoutDecision::Disconnected));
}

#[test]
fn timeout_loop_delivers_a_value() {
    let d = recv_timeout_decision(Ok(Arc::new(8u64)), 250, 100);
    assert!(matches!(d, TimeoutDecision::Deliver(v) if *v == 8));
}
