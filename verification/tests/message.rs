use bitcoin::secp256k1::PublicKey;
use scb_message_handler::ChannelReestablishPayload;

fn key(tag: u8) -> PublicKey {
    PublicKey::from_slice(&[tag; 33]).unwrap()
}

#[test]
fn forge_sets_the_fixed_fields() {
    let point = key(2);
    let msg = ChannelReestablishPayload::forge([0xaa; 32], point);
    assert_eq!(
        msg,
        ChannelReestablishPayload {
            channel_id: [0xaa; 32],
            next_local_commitment_number: 0,
            next_remote_commitment_number: 0,
            your_last_per_commitment_secret: [0; 32],
            my_current_per_commitment_point: point,
            next_funding_txid: None,
        }
    );
}

#[test]
fn forge_varies_only_with_its_arguments() {
    let first = ChannelReestablishPayload::forge([1; 32], key(2));
    let second = ChannelReestablishPayload::forge([2; 32], key(2));
    assert_ne!(first, second);
    assert_eq!(first.channel_id, [1; 32]);
    assert_eq!(second.channel_id, [2; 32]);
    assert_eq!(first.my_current_per_commitment_point, second.my_current_per_commitment_point);
    assert_eq!(first, ChannelReestablishPayload::forge([1; 32], key(2)));
}
