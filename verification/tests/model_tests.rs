use rayon_par_bridge::model::{ChannelModel, RecvOutcome, RendezvousOutcome, SendOutcome};

#[test]
fn fills_to_bound_then_blocks() {
    let mut m: ChannelModel<u32> = ChannelModel::new(2);
    assert_eq!(m.capacity(), 2);
    assert!(matches!(m.try_send(1), SendOutcome::Accepted));
    assert!(matches!(m.try_send(2), SendOutcome::Accepted));
    assert!(matches!(m.try_send(3), SendOutcome::WouldBlock));
    assert_eq!(m.buffered_len(), 2);
}

#[test]
fn delivers_in_fifo_order() {
    let mut m: ChannelModel<u32> = ChannelModel::new(2);
    assert!(matches!(m.try_send(1), SendOutcome::Accepted));
    assert!(matches!(m.try_send(2), SendOutcome::Accepted));
    assert!(matches!(m.try_recv(), RecvOutcome::Item(1)));
    assert!(matches!(m.try_recv(), RecvOutcome::Item(2)));
    assert!(matches!(m.try_recv(), RecvOutcome::WouldBlock));
}

#[test]
fn drained_channel_closes_after_sender_drops() {
    let mut m: ChannelModel<u32> = ChannelModel::new(5);
    assert!(matches!(m.try_send(10), SendOutcome::Accepted));
    assert!(matches!(m.try_send(20), SendOutcome::Accepted));
    m.drop_sender();
    assert!(matches!(m.try_recv(), RecvOutcome::Item(10)));
    assert!(matches!(m.try_recv(), RecvOutcome::Item(20)));
    assert!(matches!(m.try_recv(), RecvOutcome::Closed));
    assert_eq!(m.buffered_len(), 0);
}

#[test]
fn send_after_receiver_gone_is_refused() {
    let mut m: ChannelModel<u32> = ChannelModel::new(5);
    m.drop_receiver();
    assert!(matches!(m.try_send(1), SendOutcome::ReceiverGone));
    assert_eq!(m.buffered_len(), 0);
}

#[test]
fn zero_bound_is_a_rendezvous() {
    let mut m: ChannelModel<u32> = ChannelModel::new(0);
    assert_eq!(m.capacity(), 0);
    assert!(matches!(m.try_send(7), SendOutcome::WouldBlock));
    assert_eq!(m.buffered_len(), 0);
    assert!(matches!(m.rendezvous(7), RendezvousOutcome::Delivered(7)));
    assert_eq!(m.buffered_len(), 0);
    m.drop_receiver();
    assert!(matches!(m.rendezvous(8), RendezvousOutcome::ReceiverGone(8)));
    assert_eq!(m.buffered_len(), 0);
}
