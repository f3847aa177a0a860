//! A single-publisher, multi-subscriber broadcast channel core.
//!
//! One producer pushes values into a fixed-capacity circular buffer; every
//! subscriber reads at its own pace through a cursor of its own. A subscriber
//! that falls more than the capacity behind silently skips the overwritten
//! values instead of ever blocking the publisher. Published values are handed
//! out as reference-counted handles, so a value is shared by all readers and
//! never copied.
//!
//! The crate holds the channel's logic: the ring buffer, the per-subscriber
//! cursors and wake registry, and the decision rules of the blocking receive
//! loops. Parking and unparking of execution contexts is left to the caller,
//! who acts on the context handles these functions hand back.

pub mod channel;
pub mod errors;
pub mod ring;
pub mod wait;
