//! The runtime pieces of the bridge: the bounded handoff channel, the
//! producer task's per-item step, and the sequential pull adapter.
//!
//! The channel is `std::sync::mpsc::sync_channel`, reached through trusted
//! wrappers; its protocol is stated and proved in [`crate::model`].  The
//! values an adapter yields depend on a concurrent producer — which items it
//! managed to send before the adapter was dropped, and in what order the
//! parallel workers funnelled them in — so the functions here promise
//! nothing about those values; every property that does not depend on the
//! scheduler is proved of the model instead.

use vstd::prelude::*;

verus! {

/// The sending half of the handoff channel, as `std::sync::mpsc` provides
/// it.  Declared so that verified code can hold and pass it; its contents
/// are opaque here.
#[verifier::external_type_specification]
#[verifier::external_body]
#[verifier::reject_recursive_types(T)]
pub struct ExSyncSender<T>(std::sync::mpsc::SyncSender<T>);

/// The receiving half of the handoff channel.
#[verifier::external_type_specification]
#[verifier::external_body]
#[verifier::reject_recursive_types(T)]
pub struct ExReceiver<T>(std::sync::mpsc::Receiver<T>);

/// The receiving half turned into a blocking iterator.
#[verifier::external_type_specification]
#[verifier::external_body]
#[verifier::reject_recursive_types(T)]
pub struct ExIntoIter<T>(std::sync::mpsc::IntoIter<T>);

/// Relies on `std::sync::mpsc::sync_channel`: a bounded channel whose
/// buffer holds at most `bound` items; with `bound == 0` every send blocks
/// until a matching receive (a rendezvous).
#[verifier::external_body]
fn new_sync_channel<T>(bound: usize) -> (std::sync::mpsc::SyncSender<T>, std::sync::mpsc::Receiver<
    T,
>) {
    std::sync::mpsc::sync_channel(bound)
}

/// Relies on `std::sync::mpsc::Receiver::into_iter`: an iterator whose every
/// step is a blocking receive on the channel.
#[verifier::external_body]
fn receiver_into_iter<T>(receiver: std::sync::mpsc::Receiver<T>) -> std::sync::mpsc::IntoIter<T> {
    receiver.into_iter()
}

/// Relies on `std::sync::mpsc::SyncSender::send`: blocks until buffer space
/// is free or the receiver is gone; `ok` turns the latter into `None` and
/// discards the returned item.
#[verifier::external_body]
fn sync_send<T>(sender: &std::sync::mpsc::SyncSender<T>, item: T) -> Option<()> {
    sender.send(item).ok()
}

/// Relies on `std::sync::mpsc::IntoIter::next` (a blocking receive): `Some`
/// when an item arrived, `None` once the sender is gone and every buffered
/// item has been taken.
#[verifier::external_body]
fn recv_next<T>(inner: &mut std::sync::mpsc::IntoIter<T>) -> Option<T> {
    inner.next()
}

/// A pull adapter over the receiving end of the handoff channel: the
/// sequential face of the bridge.  Each call to [`RayonIntoIter::next`]
/// blocks until the concurrent producer has handed over an item, and yields
/// `None` once the producer is done and the buffer is drained.  Dropping the
/// adapter is the cancellation signal: the producer's next send attempt
/// fails and it stops requesting work.
#[verifier::reject_recursive_types(T)]
pub struct RayonIntoIter<T>(std::sync::mpsc::IntoIter<T>);

impl<T> RayonIntoIter<T> {
    /// Pull the next item, blocking until one is available or the channel
    /// is closed.  Which item arrives — and whether one arrives at all —
    /// depends on the concurrent producer, so nothing is promised of the
    /// result; what holds of every outcome is stated of the channel
    /// protocol in [`crate::model`].
    pub fn next(&mut self) -> Option<T> {
        recv_next(&mut self.0)
    }
}

/// Create the bounded handoff channel: the sender for the producer task and
/// the pull adapter for the consumer.  `bound` caps how many items can sit
/// between a running producer and a not-yet-ready consumer; zero makes every
/// transfer a rendezvous.
pub fn open_channel<T>(bound: usize) -> (std::sync::mpsc::SyncSender<T>, RayonIntoIter<T>) {
    let (sender, receiver) = new_sync_channel(bound);
    (sender, RayonIntoIter(receiver_into_iter(receiver)))
}

/// The producer task's per-item step: hand `item` to the consumer through
/// the channel, blocking while the buffer is full.  `Some(())` means the
/// item was delivered or buffered and the producer should keep going;
/// `None` means the receiving side is gone and the producer should stop
/// requesting further work — the cooperative early stop.
pub fn forward_item<T>(sender: &std::sync::mpsc::SyncSender<T>, item: T) -> Option<()> {
    sync_send(sender, item)
}

} // verus!
