//! Error values surfaced by the channel.

use vstd::prelude::*;

verus! {

/// Returned by a rejected broadcast: no live subscriber could ever observe
/// the value, so ownership of the un-sent value goes back to the caller.
pub struct SendError<T>(pub T);

/// Outcome of a failed non-blocking receive attempt.
#[derive(Clone, Copy, PartialEq, Eq, Structural, Debug)]
pub enum TryRecvError {
    /// Nothing new to read; the caller may retry, block or give up.
    Empty,
    /// The publisher is gone and every buffered value has been consumed.
    Disconnected,
}

/// Returned by a blocking receive once the publisher is gone and the buffer
/// is drained.
#[derive(Clone, Copy, PartialEq, Eq, Structural, Debug)]
pub struct RecvError;

/// Outcome of a failed receive with a time budget.
#[derive(Clone, Copy, PartialEq, Eq, Structural, Debug)]
pub enum RecvTimeoutError {
    /// The budget ran out before a value arrived; the channel is still open.
    Timeout,
    /// The publisher is gone and every buffered value has been consumed.
    Disconnected,
}

} // verus!
