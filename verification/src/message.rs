//! The `channel_reestablish` message and the one shape of it that this library
//! ever produces.

use crate::point::sentinel_point;
use bitcoin::secp256k1::PublicKey;
use vstd::prelude::*;

verus! {

/// The fields of a `channel_reestablish` message, as they go on the wire.
#[derive(Clone, Copy, Debug, PartialEq, Eq)]
pub struct ChannelReestablishPayload {
    /// The channel that the message is about.
    pub channel_id: [u8; 32],
    /// The next commitment number of the sender.
    pub next_local_commitment_number: u64,
    /// The next commitment number that the sender expects of the recipient.
    pub next_remote_commitment_number: u64,
    /// The last per-commitment secret that the sender received.
    pub your_last_per_commitment_secret: [u8; 32],
    /// The sender's per-commitment point for its current commitment.
    pub my_current_per_commitment_point: PublicKey,
    /// The id of a funding transaction still under negotiation, if any.
    pub next_funding_txid: Option<[u8; 32]>,
}

/// A message waiting for delivery, with the peer it is addressed to.
pub type QueuedMessage = (PublicKey, ChannelReestablishPayload);

/// Thirty-two zero bytes: the value of the array expression `[0; 32]`.
pub open spec fn zero_secret() -> [u8; 32] {
    vstd::array::spec_array_fill_for_copy_type::<u8, 32>(0u8)
}

impl ChannelReestablishPayload {
    /// The forged message for `channel_id` that carries `point`.
    ///
    /// Both commitment numbers are zero, below anything an honest peer can hold,
    /// and the secret is all zeros, which no peer ever issued. Only the channel
    /// id varies from one forged message to the next.
    pub open spec fn forged(channel_id: [u8; 32], point: PublicKey) -> Self {
        ChannelReestablishPayload {
            channel_id,
            next_local_commitment_number: 0,
            next_remote_commitment_number: 0,
            your_last_per_commitment_secret: zero_secret(),
            my_current_per_commitment_point: point,
            next_funding_txid: None,
        }
    }

    /// Whether this is the message that the library forges for its channel:
    /// every field but the channel id has its fixed value, and the point is the
    /// sentinel.
    pub open spec fn is_forged(&self) -> bool {
        *self == Self::forged(self.channel_id, sentinel_point())
    }

    /// Builds the forged message for `channel_id` around `point`.
    pub fn forge(channel_id: [u8; 32], point: PublicKey) -> (msg: Self)
        ensures
            msg == Self::forged(channel_id, point),
            msg.channel_id == channel_id,
            msg.next_local_commitment_number == 0,
            msg.next_remote_commitment_number == 0,
            msg.your_last_per_commitment_secret@ == Seq::new(32, |i: int| 0u8),
            msg.my_current_per_commitment_point == point,
            msg.next_funding_txid is None,
    {
        ChannelReestablishPayload {
            channel_id,
            next_local_commitment_number: 0,
            next_remote_commitment_number: 0,
            your_last_per_commitment_secret: [0; 32],
            my_current_per_commitment_point: point,
            next_funding_txid: None,
        }
    }
}

} // verus!
