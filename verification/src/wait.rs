//! Decision rules of the blocking receive loops.
//!
//! A blocking receive is a polling loop: try to read; on a value or on
//! disconnection, return; on emptiness, register the caller's execution
//! context with the wake registry and park. The park itself is outside work
//! performed by the caller; these functions take the outcome of a poll (and,
//! for the bounded wait, the clock readings) and say exactly what the loop
//! does next. The loop re-checks after every wake, so a spurious or unrelated
//! wake costs one more iteration, never a wrong answer.

use crate::errors::TryRecvError;
use std::sync::Arc;
use vstd::prelude::*;

verus! {

/// What an unbounded blocking receive does after one poll.
pub enum RecvDecision<T> {
    /// A value arrived: hand its shared handle to the caller.
    Deliver(Arc<T>),
    /// The publisher is gone and the buffer is drained: fail for good.
    Disconnected,
    /// Nothing yet: register the caller's context and park without a bound.
    Park,
}

/// What a bounded blocking receive does after one poll.
pub enum TimeoutDecision<T> {
    /// A value arrived: hand its shared handle to the caller.
    Deliver(Arc<T>),
    /// The publisher is gone and the buffer is drained: fail for good.
    /// Preferred over the timeout whenever both hold.
    Disconnected,
    /// The time budget is spent and still nothing arrived.
    TimedOut,
    /// Nothing yet and budget remains: park for at most this many
    /// milliseconds, then poll again.
    ParkFor(u64),
}

/// One step of the unbounded receive loop, from the poll's outcome.
pub fn recv_decision<T>(poll: Result<Arc<T>, TryRecvError>) -> (d: RecvDecision<T>)
    ensures
        poll matches Ok(a) ==> (d matches RecvDecision::Deliver(b) && b == a),
        poll matches Err(TryRecvError::Disconnected) ==> d matches RecvDecision::Disconnected,
        poll matches Err(TryRecvError::Empty) ==> d matches RecvDecision::Park,
{
    match poll {
        Ok(a) => RecvDecision::Deliver(a),
        Err(TryRecvError::Disconnected) => RecvDecision::Disconnected,
        Err(TryRecvError::Empty) => RecvDecision::Park,
    }
}

/// One step of the bounded receive loop, from the poll's outcome, the time
/// already spent waiting and the whole budget (both in milliseconds). The
/// budget is measured across all wake and re-check cycles, so a spurious
/// wake never resets the deadline; disconnection wins over the timeout.
pub fn recv_timeout_decision<T>(
    poll: Result<Arc<T>, TryRecvError>,
    elapsed_ms: u64,
    budget_ms: u64,
) -> (d: TimeoutDecision<T>)
    ensures
        poll matches Ok(a) ==> (d matches TimeoutDecision::Deliver(b) && b == a),
        poll matches Err(TryRecvError::Disconnected) ==> d matches TimeoutDecision::Disconnected,
        poll matches Err(TryRecvError::Empty) && elapsed_ms >= budget_ms ==> d
            matches TimeoutDecision::TimedOut,
        poll matches Err(TryRecvError::Empty) && elapsed_ms < budget_ms ==> (d
            matches TimeoutDecision::ParkFor(rest) && rest == budget_ms - elapsed_ms),
{
    match poll {
        Ok(a) => TimeoutDecision::Deliver(a),
        Err(TryRecvError::Disconnected) => TimeoutDecision::Disconnected,
        Err(TryRecvError::Empty) => {
            if elapsed_ms >= budget_ms {
                TimeoutDecision::TimedOut
            } else {
                TimeoutDecision::ParkFor(budget_ms - elapsed_ms)
            }
        },
    }
}

} // verus!
