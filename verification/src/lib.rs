//! Bridge a parallel, unordered producer to a sequential pull-based consumer.
//!
//! A bounded handoff channel carries items from a producer task, which drains
//! a parallel computation, to a pull adapter that a consumer reads one item
//! at a time.  The channel's capacity is the sole backpressure valve: the
//! producer can never run more than `bound` items ahead of the consumer.
//!
//! The [`model`] module holds a sequential model of the channel protocol with
//! its invariants proved: the buffer never exceeds the bound, no item is
//! duplicated or lost, and a drained channel has delivered exactly what was
//! sent.  The [`channel`] module holds the runtime pieces: the channel
//! itself, the producer task's per-item step, and the pull adapter.

pub mod channel;
pub mod model;

pub use channel::RayonIntoIter;
