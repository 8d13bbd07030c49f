//! The pending messages as a sequence, oldest first, and what requests and
//! drains do to it.
//!
//! The handler's contracts are stated over this sequence. The lemmas below say
//! what follows for any run of close requests: something stays pending until a
//! drain, every request adds exactly one message, messages leave in the order
//! in which they were requested, and none but forged messages are ever queued.

use crate::message::{ChannelReestablishPayload, QueuedMessage};
use crate::point::sentinel_point;
use bitcoin::secp256k1::PublicKey;
use vstd::prelude::*;
use vstd::seq_lib::{
    lemma_multiset_commutative, to_multiset_build, to_multiset_contains, to_multiset_len,
    to_multiset_remove,
};

verus! {

/// A request to close a channel: the peer to address and the channel id.
pub type CloseRequest = (PublicKey, [u8; 32]);

/// Whether anything in `pending` waits for delivery.
pub open spec fn has_pending(pending: Seq<QueuedMessage>) -> bool {
    pending.len() > 0
}

/// The entry that a request puts in the queue: the forged message for the
/// channel, addressed to the peer.
pub open spec fn queued_for(request: CloseRequest) -> QueuedMessage {
    (request.0, ChannelReestablishPayload::forged(request.1, sentinel_point()))
}

/// The pending messages after a close of `channel_id` was requested of
/// `node_id`: the forged message joins at the tail.
pub open spec fn close_requested(
    pending: Seq<QueuedMessage>,
    node_id: PublicKey,
    channel_id: [u8; 32],
) -> Seq<QueuedMessage> {
    pending.push(queued_for((node_id, channel_id)))
}

/// The pending messages after each of `requests` was made in turn, with no
/// drain in between.
pub open spec fn after_requests(
    pending: Seq<QueuedMessage>,
    requests: Seq<CloseRequest>,
) -> Seq<QueuedMessage>
    decreases requests.len(),
{
    if requests.len() == 0 {
        pending
    } else {
        let last = requests.last();
        close_requested(after_requests(pending, requests.drop_last()), last.0, last.1)
    }
}

/// The entries that `requests` put in the queue, in the order of the requests.
pub open spec fn queued_for_all(requests: Seq<CloseRequest>) -> Seq<QueuedMessage> {
    Seq::new(requests.len(), |j: int| queued_for(requests[j]))
}

/// Whether every message in `pending` is a forged one.
pub open spec fn all_forged(pending: Seq<QueuedMessage>) -> bool {
    forall|i: int| 0 <= i < pending.len() ==> (#[trigger] pending[i]).1.is_forged()
}

/// Every request adds exactly one entry at the tail: after `requests`, the
/// queue is what was pending before, followed by one forged message for each
/// request, in the order of the requests. Nothing is lost and nothing is
/// queued twice, however many requests there are.
pub proof fn lemma_one_message_per_request(
    pending: Seq<QueuedMessage>,
    requests: Seq<CloseRequest>,
)
    ensures
        after_requests(pending, requests).len() == pending.len() + requests.len(),
        after_requests(pending, requests) == pending + queued_for_all(requests),
    decreases requests.len(),
{
    if requests.len() > 0 {
        lemma_one_message_per_request(pending, requests.drop_last());
    }
}

/// Once a close has been requested, something is pending, and it stays so
/// through every further request: after any non-empty prefix of `requests`,
/// the queue is not empty, whatever was pending before.
pub proof fn lemma_pending_once_requested(
    pending: Seq<QueuedMessage>,
    requests: Seq<CloseRequest>,
    made: int,
)
    requires
        1 <= made <= requests.len(),
    ensures
        has_pending(after_requests(pending, requests.take(made))),
{
    lemma_one_message_per_request(pending, requests.take(made));
}

/// A drain leaves the empty sequence behind, and in it nothing is pending.
pub proof fn lemma_nothing_pending_when_drained()
    ensures
        !has_pending(Seq::<QueuedMessage>::empty()),
{
}

/// First in, first out: of two requests, the message of the earlier one
/// stands before that of the later one, and both stand behind everything
/// that was pending before. A drain hands the queue out in this order.
pub proof fn lemma_delivery_follows_request_order(
    pending: Seq<QueuedMessage>,
    requests: Seq<CloseRequest>,
    earlier: int,
    later: int,
)
    requires
        0 <= earlier < later < requests.len(),
    ensures
        pending.len() <= pending.len() + earlier < pending.len() + later < after_requests(
            pending,
            requests,
        ).len(),
        after_requests(pending, requests)[pending.len() + earlier] == queued_for(
            requests[earlier],
        ),
        after_requests(pending, requests)[pending.len() + later] == queued_for(requests[later]),
        forall|i: int|
            0 <= i < pending.len() ==> #[trigger] after_requests(pending, requests)[i]
                == pending[i],
{
    lemma_one_message_per_request(pending, requests);
}

/// The same requests in another order queue the same messages, each as often.
proof fn lemma_same_requests_same_messages(first: Seq<CloseRequest>, second: Seq<CloseRequest>)
    requires
        first.to_multiset() == second.to_multiset(),
    ensures
        queued_for_all(first).to_multiset() == queued_for_all(second).to_multiset(),
    decreases first.len(),
{
    to_multiset_len(first);
    to_multiset_len(second);
    if first.len() == 0 {
        assert(queued_for_all(first) =~= queued_for_all(second));
    } else {
        let request = first.last();
        to_multiset_build(first.drop_last(), request);
        assert(first.drop_last().push(request) =~= first);
        to_multiset_contains(second, request);
        let at = choose|at: int| 0 <= at < second.len() && second[at] == request;
        to_multiset_remove(second, at);
        assert(first.drop_last().to_multiset() =~= second.remove(at).to_multiset());
        lemma_same_requests_same_messages(first.drop_last(), second.remove(at));

        let entry = queued_for(request);
        assert(queued_for_all(first.drop_last()).push(entry) =~= queued_for_all(first));
        to_multiset_build(queued_for_all(first.drop_last()), entry);
        assert(queued_for_all(second).remove(at) =~= queued_for_all(second.remove(at)));
        to_multiset_remove(queued_for_all(second), at);
        to_multiset_contains(queued_for_all(second), entry);
        assert(queued_for_all(second)[at] == entry);
        assert(queued_for_all(second).to_multiset() =~= queued_for_all(
            second.remove(at),
        ).to_multiset().insert(entry));
    }
}

/// Callers admitted in another order change the order of the messages and
/// nothing else: two runs of the same requests leave equally many messages
/// pending, and the same messages, each as often.
pub proof fn lemma_arrival_order_keeps_messages(
    pending: Seq<QueuedMessage>,
    first: Seq<CloseRequest>,
    second: Seq<CloseRequest>,
)
    requires
        first.to_multiset() == second.to_multiset(),
    ensures
        after_requests(pending, first).len() == after_requests(pending, second).len(),
        after_requests(pending, first).to_multiset() == after_requests(
            pending,
            second,
        ).to_multiset(),
{
    lemma_one_message_per_request(pending, first);
    lemma_one_message_per_request(pending, second);
    to_multiset_len(first);
    to_multiset_len(second);
    lemma_same_requests_same_messages(first, second);
    lemma_multiset_commutative(pending, queued_for_all(first));
    lemma_multiset_commutative(pending, queued_for_all(second));
}

/// Whatever peer and channel a request names, the message that it queues is
/// addressed to that peer, names that channel, and has the fixed values in
/// every other field: both commitment numbers zero, a secret of thirty-two
/// zero bytes, the sentinel point, and no funding transaction.
pub proof fn lemma_queued_message_is_fixed(request: CloseRequest)
    ensures
        queued_for(request).0 == request.0,
        queued_for(request).1.channel_id == request.1,
        queued_for(request).1.next_local_commitment_number == 0,
        queued_for(request).1.next_remote_commitment_number == 0,
        queued_for(request).1.your_last_per_commitment_secret@ == Seq::new(32, |i: int| 0u8),
        queued_for(request).1.my_current_per_commitment_point == sentinel_point(),
        queued_for(request).1.next_funding_txid is None,
        queued_for(request).1.is_forged(),
{
}

/// Requests queue nothing but forged messages: if every pending message is
/// forged, as in the empty queue of a new handler, so is every message after
/// any run of requests.
pub proof fn lemma_requests_queue_only_forged(
    pending: Seq<QueuedMessage>,
    requests: Seq<CloseRequest>,
)
    requires
        all_forged(pending),
    ensures
        all_forged(after_requests(pending, requests)),
{
    lemma_one_message_per_request(pending, requests);
}

} // verus!
