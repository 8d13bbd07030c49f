use bitcoin::secp256k1::PublicKey;
use scb_message_handler::{ChannelReestablishPayload, OutboundQueue};

fn peer(tag: u8) -> PublicKey {
    PublicKey::from_slice(&[tag; 33]).unwrap()
}

#[test]
fn new_queue_is_empty() {
    let mut queue = OutboundQueue::new();
    assert!(queue.is_empty());
    assert!(queue.drain_all().is_empty());
    assert!(queue.is_empty());
}

#[test]
fn queue_drains_in_insertion_order_and_empties() {
    let mut queue = OutboundQueue::new();
    let genuine = ChannelReestablishPayload {
        channel_id: [5; 32],
        next_local_commitment_number: 3,
        next_remote_commitment_number: 2,
        your_last_per_commitment_secret: [0x10; 32],
        my_current_per_commitment_point: peer(2),
        next_funding_txid: Some([0x20; 32]),
    };
    let forged = ChannelReestablishPayload::forge([6; 32], peer(2));
    queue.enqueue(peer(2), genuine);
    assert!(!queue.is_empty());
    queue.enqueue(peer(2), forged);
    queue.enqueue(peer(2), genuine);
    assert_eq!(queue.drain_all(), vec![(peer(2), genuine), (peer(2), forged), (peer(2), genuine)]);
    assert!(queue.is_empty());
    assert_eq!(queue.drain_all(), vec![]);
}

#[test]
fn queue_takes_entries_again_after_a_drain() {
    let mut queue = OutboundQueue::new();
    let forged = ChannelReestablishPayload::forge([1; 32], peer(2));
    queue.enqueue(peer(2), forged);
    assert_eq!(queue.drain_all().len(), 1);
    queue.enqueue(peer(2), forged);
    queue.enqueue(peer(2), forged);
    assert!(!queue.is_empty());
    assert_eq!(queue.drain_all().len(), 2);
}
