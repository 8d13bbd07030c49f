//! The message handler: it forges a close request on demand, keeps it queued,
//! and hands the queue to the peer-connection engine when asked.

use crate::features::FeatureFlags;
use crate::message::{ChannelReestablishPayload, QueuedMessage};
use crate::pending::{all_forged, close_requested, has_pending};
use crate::point::{parse_sentinel_point, sentinel_point_is_valid};
use crate::queue::OutboundQueue;
use bitcoin::secp256k1::PublicKey;
use lightning::ln::msgs::{DecodeError, LightningError};
use vstd::prelude::*;

verus! {

/// `lightning::ln::msgs::DecodeError`, the error of a message decoder. This
/// library never decodes and never makes one.
#[verifier::external_type_specification]
#[verifier::external_body]
pub struct ExDecodeError(lightning::ln::msgs::DecodeError);

/// `lightning::ln::msgs::LightningError`, the error of a message handler. This
/// library never makes one.
#[verifier::external_type_specification]
#[verifier::external_body]
pub struct ExLightningError(lightning::ln::msgs::LightningError);

/// Message handler for static channel backups.
///
/// It sends bogus `channel_reestablish` messages, which make the peer close the
/// channel on our behalf. A message is not sent when it is requested: it waits
/// until the peer-connection engine next collects the pending messages.
pub struct SCBMessageHandler {
    msg_events: OutboundQueue,
}

impl View for SCBMessageHandler {
    type V = Seq<QueuedMessage>;

    /// The messages that wait for delivery, oldest first.
    closed spec fn view(&self) -> Seq<QueuedMessage> {
        self.msg_events@
    }
}

impl SCBMessageHandler {
    /// Nothing but forged messages is ever queued.
    #[verifier::type_invariant]
    spec fn holds_only_forged(self) -> bool {
        all_forged(self.msg_events@)
    }

    /// Creates a handler with nothing pending.
    pub fn new() -> (handler: Self)
        ensures
            handler@ == Seq::<QueuedMessage>::empty(),
    {
        SCBMessageHandler { msg_events: OutboundQueue::new() }
    }

    /// Queues a forged `channel_reestablish` for `channel_id`, addressed to
    /// `node_id`. Neither is checked against any real channel.
    pub fn request_channel_close(&mut self, node_id: PublicKey, channel_id: [u8; 32])
        requires
            sentinel_point_is_valid(),
        ensures
            final(self)@ == close_requested(old(self)@, node_id, channel_id),
    {
        proof {
            use_type_invariant(&*self);
        }
        let dummy_pubkey = parse_sentinel_point().unwrap();
        let msg = ChannelReestablishPayload::forge(channel_id, dummy_pubkey);
        // The queue grows outside the handler and is put back whole.
        let mut queue = OutboundQueue::new();
        std::mem::swap(&mut queue, &mut self.msg_events);
        queue.enqueue(node_id, msg);
        self.msg_events = queue;
    }

    /// Queues the forged message if the curve library accepts the sentinel
    /// point, and says whether it did. Otherwise nothing changes.
    pub fn try_request_channel_close(&mut self, node_id: PublicKey, channel_id: [u8; 32]) -> (queued:
        bool)
        ensures
            queued == sentinel_point_is_valid(),
            queued ==> final(self)@ == close_requested(old(self)@, node_id, channel_id),
            !queued ==> final(self)@ == old(self)@,
    {
        if parse_sentinel_point().is_some() {
            self.request_channel_close(node_id, channel_id);
            true
        } else {
            false
        }
    }

    /// Returns whether the handler has any message to be sent.
    pub fn has_pending_messages(&self) -> (pending: bool)
        ensures
            pending == has_pending(self@),
    {
        !self.msg_events.is_empty()
    }

    /// Never recognises a message: this handler only sends. The reader is left
    /// as it was.
    #[allow(unused_variables)]
    pub fn read<R>(&self, msg_type: u16, buffer: &mut R) -> (decoded: Result<
        Option<ChannelReestablishPayload>,
        DecodeError,
    >)
        ensures
            decoded == Ok::<Option<ChannelReestablishPayload>, DecodeError>(None),
            *final(buffer) == *old(buffer),
    {
        Ok(None)
    }

    /// Accepts any message and does nothing with it.
    #[allow(unused_variables)]
    pub fn handle_custom_message(&self, msg: ChannelReestablishPayload, org: &PublicKey) -> (handled:
        Result<(), LightningError>)
        ensures
            handled is Ok,
    {
        Ok(())
    }

    /// Takes every pending message for delivery, oldest first, and leaves
    /// nothing pending.
    pub fn get_and_clear_pending_msg(&mut self) -> (msgs: Vec<QueuedMessage>)
        ensures
            msgs@ == old(self)@,
            all_forged(msgs@),
            final(self)@ == Seq::<QueuedMessage>::empty(),
    {
        proof {
            use_type_invariant(&*self);
        }
        let mut queue = OutboundQueue::new();
        std::mem::swap(&mut queue, &mut self.msg_events);
        queue.drain_all()
    }

    /// The node-wide feature bits of this handler: none.
    pub fn provided_node_features(&self) -> (features: FeatureFlags)
        ensures
            features.le_flags@ == Seq::<u8>::empty(),
            forall|bit: nat| !features.advertises(bit),
    {
        FeatureFlags::empty()
    }

    /// The feature bits to send to `their_node_id` on connecting: none.
    #[allow(unused_variables)]
    pub fn provided_init_features(&self, their_node_id: &PublicKey) -> (features: FeatureFlags)
        ensures
            features.le_flags@ == Seq::<u8>::empty(),
            forall|bit: nat| !features.advertises(bit),
    {
        FeatureFlags::empty()
    }
}

impl Default for SCBMessageHandler {
    fn default() -> (handler: Self)
        ensures
            handler@ == Seq::<QueuedMessage>::empty(),
    {
        Self::new()
    }
}

} // verus!
