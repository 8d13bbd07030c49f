//! The outbound queue: messages in the order in which they were requested,
//! held until the peer-connection engine takes them all at once.

use crate::message::{ChannelReestablishPayload, QueuedMessage};
use bitcoin::secp256k1::PublicKey;
use std::collections::VecDeque;
use vstd::prelude::*;

verus! {

/// A first-in, first-out queue of messages, each with the peer it goes to.
///
/// The same peer and channel may be queued more than once; an entry has no
/// identity beyond its position.
pub struct OutboundQueue {
    entries: VecDeque<QueuedMessage>,
}

impl View for OutboundQueue {
    type V = Seq<QueuedMessage>;

    /// The queued entries, oldest first.
    closed spec fn view(&self) -> Seq<QueuedMessage> {
        self.entries@
    }
}

impl OutboundQueue {
    /// An empty queue.
    pub fn new() -> (queue: Self)
        ensures
            queue@ == Seq::<QueuedMessage>::empty(),
    {
        OutboundQueue { entries: VecDeque::new() }
    }

    /// Appends `message`, addressed to `peer_id`, at the tail.
    pub fn enqueue(&mut self, peer_id: PublicKey, message: ChannelReestablishPayload)
        ensures
            final(self)@ == old(self)@.push((peer_id, message)),
    {
        self.entries.push_back((peer_id, message));
    }

    /// Removes every entry and returns them, oldest first.
    pub fn drain_all(&mut self) -> (drained: Vec<QueuedMessage>)
        ensures
            drained@ == old(self)@,
            final(self)@ == Seq::<QueuedMessage>::empty(),
    {
        let mut drained: Vec<QueuedMessage> = Vec::new();
        while self.entries.len() > 0
            invariant
                drained@ + self.entries@ == old(self).entries@,
            decreases self.entries@.len(),
        {
            let next = self.entries.pop_front();
            match next {
                Some(entry) => drained.push(entry),
                None => {},
            }
        }
        drained
    }

    /// Whether nothing is queued.
    pub fn is_empty(&self) -> (empty: bool)
        ensures
            empty == (self@.len() == 0),
    {
        self.entries.len() == 0
    }
}

} // verus!
