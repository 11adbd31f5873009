//! A sequential model of the bounded handoff channel.
//!
//! The runtime channel is shared between two threads, so its state can only
//! be observed through the blocking calls.  This module states the protocol
//! those calls follow as a single-threaded state machine: a capacity, a FIFO
//! buffer, and the liveness of the two endpoints, together with ghost
//! histories of everything ever sent and received.  Every transition keeps
//! the two invariants that the bridge is built on: the buffer never holds
//! more than `bound` items (backpressure), and the sent history is always
//! exactly the received history followed by the buffered items (no item is
//! duplicated, lost, or reordered).

use vstd::prelude::*;

verus! {

/// What a non-blocking view of the producer's `send` can observe.
pub enum SendOutcome {
    /// The item was placed in the buffer.
    Accepted,
    /// The buffer is at capacity; a blocking send would wait here.
    WouldBlock,
    /// The receiving side is gone; the producer should stop.
    ReceiverGone,
}

/// What a non-blocking view of the consumer's `receive` can observe.
pub enum RecvOutcome<T> {
    /// The oldest buffered item, now owned by the consumer.
    Item(T),
    /// The buffer is empty but the sender is still live; a blocking
    /// receive would wait here.
    WouldBlock,
    /// The sender is gone and the buffer is drained: end of stream.
    Closed,
}

/// What a zero-capacity handoff can observe: with no buffer, an item moves
/// only when both sides meet.
pub enum RendezvousOutcome<T> {
    /// The consumer took the item.
    Delivered(T),
    /// The receiving side is gone; the item comes back to the producer.
    ReceiverGone(T),
}

/// The state of the bounded handoff channel: a capacity, the FIFO buffer,
/// whether each endpoint is still live, and ghost histories of every item
/// sent and received.
pub struct ChannelModel<T> {
    cap: usize,
    queue: Vec<T>,
    sender_live: bool,
    receiver_live: bool,
    sent: Ghost<Seq<T>>,
    received: Ghost<Seq<T>>,
}

impl<T> ChannelModel<T> {
    /// The channel's capacity.
    pub closed spec fn bound(self) -> usize {
        self.cap
    }

    /// The items currently buffered, oldest first.
    pub closed spec fn buffered(self) -> Seq<T> {
        self.queue@
    }

    /// Every item the producer has handed over, in send order.
    pub closed spec fn sent(self) -> Seq<T> {
        self.sent@
    }

    /// Every item the consumer has taken, in receive order.
    pub closed spec fn received(self) -> Seq<T> {
        self.received@
    }

    /// Whether the sending side is still live.
    pub closed spec fn sender_live(self) -> bool {
        self.sender_live
    }

    /// Whether the receiving side is still live.
    pub closed spec fn receiver_live(self) -> bool {
        self.receiver_live
    }

    /// The channel invariant: the buffer respects the capacity, and the
    /// sent history is the received history followed by the buffer, so
    /// every item sent is delivered at most once and in order.
    pub open spec fn inv(self) -> bool {
        &&& self.buffered().len() <= self.bound()
        &&& self.sent() == self.received() + self.buffered()
    }

    /// A fresh channel: empty buffer, both endpoints live, empty histories.
    pub fn new(bound: usize) -> (r: ChannelModel<T>)
        ensures
            r.inv(),
            r.bound() == bound,
            r.buffered() == Seq::<T>::empty(),
            r.sent() == Seq::<T>::empty(),
            r.received() == Seq::<T>::empty(),
            r.sender_live(),
            r.receiver_live(),
    {
        let r = ChannelModel {
            cap: bound,
            queue: Vec::new(),
            sender_live: true,
            receiver_live: true,
            sent: Ghost(Seq::empty()),
            received: Ghost(Seq::empty()),
        };
        proof {
            assert(r.buffered() =~= Seq::<T>::empty());
            assert(r.sent() =~= r.received() + r.buffered());
        }
        r
    }

    /// The producer's send attempt.  A gone receiver dominates and leaves
    /// the state unchanged; otherwise the item is buffered exactly when
    /// there is room, and a full buffer reports where a blocking send
    /// would wait.
    pub fn try_send(&mut self, item: T) -> (r: SendOutcome)
        requires
            old(self).inv(),
        ensures
            final(self).inv(),
            final(self).bound() == old(self).bound(),
            final(self).sender_live() == old(self).sender_live(),
            final(self).receiver_live() == old(self).receiver_live(),
            final(self).received() == old(self).received(),
            (r is ReceiverGone) <==> !old(self).receiver_live(),
            (r is Accepted) <==> (old(self).receiver_live()
                && old(self).buffered().len() < old(self).bound()),
            (r is WouldBlock) <==> (old(self).receiver_live()
                && old(self).buffered().len() >= old(self).bound()),
            r is Accepted ==> final(self).buffered() == old(self).buffered().push(item)
                && final(self).sent() == old(self).sent().push(item),
            !(r is Accepted) ==> final(self).buffered() == old(self).buffered()
                && final(self).sent() == old(self).sent(),
    {
        if !self.receiver_live {
            SendOutcome::ReceiverGone
        } else if self.queue.len() < self.cap {
            self.sent = Ghost(self.sent@.push(item));
            self.queue.push(item);
            proof {
                assert(self.sent() =~= self.received() + self.buffered());
            }
            SendOutcome::Accepted
        } else {
            SendOutcome::WouldBlock
        }
    }

    /// The consumer's receive attempt.  The oldest buffered item is
    /// delivered when one exists; an empty buffer reports end of stream
    /// once the sender is gone, and otherwise where a blocking receive
    /// would wait.
    pub fn try_recv(&mut self) -> (r: RecvOutcome<T>)
        requires
            old(self).inv(),
        ensures
            final(self).inv(),
            final(self).bound() == old(self).bound(),
            final(self).sender_live() == old(self).sender_live(),
            final(self).receiver_live() == old(self).receiver_live(),
            final(self).sent() == old(self).sent(),
            (r is Item) <==> old(self).buffered().len() > 0,
            old(self).buffered().len() > 0 ==> (r matches RecvOutcome::Item(y)
                && y == old(self).buffered()[0]
                && final(self).buffered() == old(self).buffered().subrange(
                    1,
                    old(self).buffered().len() as int,
                )
                && final(self).received() == old(self).received().push(
                    old(self).buffered()[0],
                )),
            old(self).buffered().len() == 0 ==> final(self).buffered() == old(self).buffered()
                && final(self).received() == old(self).received(),
            (old(self).buffered().len() == 0 && old(self).sender_live()) ==> (r is WouldBlock),
            (old(self).buffered().len() == 0 && !old(self).sender_live()) ==> (r is Closed),
    {
        if self.queue.len() > 0 {
            let item = self.queue.remove(0);
            self.received = Ghost(self.received@.push(item));
            proof {
                assert(self.queue@ =~= old(self).queue@.subrange(
                    1,
                    old(self).queue@.len() as int,
                ));
                assert(self.sent() =~= self.received() + self.buffered());
            }
            RecvOutcome::Item(item)
        } else if self.sender_live {
            RecvOutcome::WouldBlock
        } else {
            RecvOutcome::Closed
        }
    }

    /// The zero-capacity handoff: with `bound == 0` nothing can be
    /// buffered, so an item moves directly from producer to consumer when
    /// both sides meet, and comes back to the producer when the receiving
    /// side is gone.
    pub fn rendezvous(&mut self, item: T) -> (r: RendezvousOutcome<T>)
        requires
            old(self).inv(),
            old(self).bound() == 0,
        ensures
            final(self).inv(),
            final(self).bound() == old(self).bound(),
            final(self).sender_live() == old(self).sender_live(),
            final(self).receiver_live() == old(self).receiver_live(),
            final(self).buffered() == old(self).buffered(),
            old(self).receiver_live() ==> (r matches RendezvousOutcome::Delivered(y)
                && y == item
                && final(self).sent() == old(self).sent().push(item)
                && final(self).received() == old(self).received().push(item)),
            !old(self).receiver_live() ==> (r matches RendezvousOutcome::ReceiverGone(y)
                && y == item
                && final(self).sent() == old(self).sent()
                && final(self).received() == old(self).received()),
    {
        if self.receiver_live {
            self.sent = Ghost(self.sent@.push(item));
            self.received = Ghost(self.received@.push(item));
            proof {
                assert(self.sent() =~= self.received() + self.buffered());
            }
            RendezvousOutcome::Delivered(item)
        } else {
            RendezvousOutcome::ReceiverGone(item)
        }
    }

    /// The producer task has ended (normally or by stopping early) and its
    /// sender is dropped.  Buffered items stay available to the consumer.
    pub fn drop_sender(&mut self)
        requires
            old(self).inv(),
        ensures
            final(self).inv(),
            final(self).bound() == old(self).bound(),
            final(self).buffered() == old(self).buffered(),
            final(self).sent() == old(self).sent(),
            final(self).received() == old(self).received(),
            !final(self).sender_live(),
            final(self).receiver_live() == old(self).receiver_live(),
    {
        self.sender_live = false;
    }

    /// The consumer has dropped its adapter: the only cancellation signal.
    /// From here every send attempt reports `ReceiverGone`.
    pub fn drop_receiver(&mut self)
        requires
            old(self).inv(),
        ensures
            final(self).inv(),
            final(self).bound() == old(self).bound(),
            final(self).buffered() == old(self).buffered(),
            final(self).sent() == old(self).sent(),
            final(self).received() == old(self).received(),
            final(self).sender_live() == old(self).sender_live(),
            !final(self).receiver_live(),
    {
        self.receiver_live = false;
    }

    /// The channel's capacity.
    pub fn capacity(&self) -> (r: usize)
        ensures
            r == self.bound(),
    {
        self.cap
    }

    /// How many items are currently buffered.
    pub fn buffered_len(&self) -> (r: usize)
        ensures
            r == self.buffered().len(),
    {
        self.queue.len()
    }
}

/// Backpressure: in every state that satisfies the invariant — and every
/// transition preserves it — the number of buffered items never exceeds
/// the bound.
pub proof fn lemma_backpressure<T>(m: ChannelModel<T>)
    requires
        m.inv(),
    ensures
        m.buffered().len() <= m.bound(),
{
}

/// Exhaustion: once the buffer is drained, the consumer has received
/// exactly the items the producer sent, in send order — so a consumer that
/// pulls to exhaustion sees every item exactly once.
pub proof fn lemma_drained_receives_all<T>(m: ChannelModel<T>)
    requires
        m.inv(),
        m.buffered().len() == 0,
    ensures
        m.received() == m.sent(),
        m.received().len() == m.sent().len(),
{
    assert(m.received() + m.buffered() =~= m.received());
}

/// Exactly-once delivery while both ends are live: the consumer has
/// received exactly a prefix of what the producer sent — no item is
/// duplicated, invented, or delivered out of order — and the remainder
/// sits in the buffer, still owed to the consumer.
pub proof fn lemma_received_is_prefix_of_sent<T>(m: ChannelModel<T>)
    requires
        m.inv(),
    ensures
        m.sent().len() == m.received().len() + m.buffered().len(),
        m.received() == m.sent().subrange(0, m.received().len() as int),
        m.buffered() == m.sent().subrange(m.received().len() as int, m.sent().len() as int),
{
    assert(m.received() =~= m.sent().subrange(0, m.received().len() as int));
    assert(m.buffered() =~= m.sent().subrange(
        m.received().len() as int,
        m.sent().len() as int,
    ));
}

/// Shape idempotence: two runs whose producers sent the same items (as a
/// multiset — the parallel engine fixes no order) deliver the same items
/// once both are drained.
pub proof fn lemma_same_sends_same_receives<T>(m1: ChannelModel<T>, m2: ChannelModel<T>)
    requires
        m1.inv(),
        m2.inv(),
        m1.buffered().len() == 0,
        m2.buffered().len() == 0,
        m1.sent().to_multiset() == m2.sent().to_multiset(),
    ensures
        m1.received().to_multiset() == m2.received().to_multiset(),
{
    lemma_drained_receives_all(m1);
    lemma_drained_receives_all(m2);
}

} // verus!

