//! The gossip engine: libp2p's `Gossipsub`, the calls made into it, and what
//! it reports.
//!
//! The engine is made by the host, which also polls it. Publishing is left
//! to the host as well: the engine refuses to publish where it was set up to
//! keep no history, and an engine does not tell how it was set up.

use libp2p::gossipsub::{Gossipsub, MessageId, Topic, TopicHash};
use libp2p::PeerId;
use vstd::prelude::*;

verus! {

/// libp2p's gossip engine.
#[verifier::external_type_specification]
#[verifier::external_body]
pub struct ExGossipsub(Gossipsub);

/// libp2p's identifier of a gossip message.
#[verifier::external_type_specification]
#[verifier::external_body]
pub struct ExMessageId(MessageId);

/// libp2p's hash of a gossip topic.
#[verifier::external_type_specification]
#[verifier::external_body]
pub struct ExTopicHash(TopicHash);

/// A message for the gossip engine to publish: the name of the topic, and the
/// content.
#[derive(Debug, PartialEq)]
pub struct Publication {
    pub topic: String,
    pub data: Vec<u8>,
}

/// A message received by the gossip engine.
#[derive(Debug, PartialEq)]
pub struct GossipsubMessage {
    /// The peer that published the message.
    pub source: PeerId,
    /// The content.
    pub data: Vec<u8>,
    /// A random sequence number.
    pub sequence_number: u64,
    /// The topics the message belongs to.
    pub topics: Vec<TopicHash>,
}

/// What the gossip engine reports.
#[derive(Debug, PartialEq)]
pub enum GossipsubEvent {
    /// A message arrived: the peer it was received from, its id, and the
    /// message.
    Message(PeerId, MessageId, GossipsubMessage),
    /// A remote subscribed to a topic.
    Subscribed { peer_id: PeerId, topic: TopicHash },
    /// A remote unsubscribed from a topic.
    Unsubscribed { peer_id: PeerId, topic: TopicHash },
}

/// Whether the engine is subscribed to the topic named `topic`: whether its
/// mesh has an entry for the topic.
pub uninterp spec fn gossipsub_subscribed(engine: Gossipsub, topic: Seq<char>) -> bool;

/// The mesh degree that the engine was set up with: the number of peers it
/// aims to keep in the mesh of a topic.
pub uninterp spec fn gossipsub_mesh_n(engine: Gossipsub) -> nat;

/// What a call to subscribe to `topic` makes of an engine, as far as its
/// subscriptions go: it keeps every subscription it had, and it is subscribed
/// to the topic unless it was set up with a mesh degree of zero.
pub open spec fn engine_joined(before: Gossipsub, after: Gossipsub, topic: Seq<char>) -> bool {
    &&& gossipsub_mesh_n(after) == gossipsub_mesh_n(before)
    &&& forall|other: Seq<char>| #[trigger]
        gossipsub_subscribed(before, other) ==> gossipsub_subscribed(after, other)
    &&& gossipsub_mesh_n(before) > 0 ==> gossipsub_subscribed(after, topic)
}

/// What a call to unsubscribe from `topic` makes of an engine, as far as its
/// subscriptions go: it is not subscribed to the topic, and it has gained no
/// subscription.
pub open spec fn engine_left(before: Gossipsub, after: Gossipsub, topic: Seq<char>) -> bool {
    &&& gossipsub_mesh_n(after) == gossipsub_mesh_n(before)
    &&& forall|other: Seq<char>| #[trigger]
        gossipsub_subscribed(after, other) ==> gossipsub_subscribed(before, other)
    &&& !gossipsub_subscribed(after, topic)
}

/// What a call that leaves the subscriptions alone makes of an engine, as far
/// as its subscriptions go.
pub open spec fn engine_kept(before: Gossipsub, after: Gossipsub) -> bool {
    &&& gossipsub_mesh_n(after) == gossipsub_mesh_n(before)
    &&& forall|other: Seq<char>| #[trigger]
        gossipsub_subscribed(after, other) == gossipsub_subscribed(before, other)
}

/// `Gossipsub::subscribe` on the topic named `topic`. The engine answers
/// `true` if the subscription is new and `false` if it was already
/// subscribed. An engine that was subscribed is left as it was. Otherwise
/// the engine joins the topic: its mesh gets an entry for the topic, unless
/// the engine was set up with a mesh degree of zero and has no fanout peers
/// for the topic. No entry of the mesh is taken away, and the set-up of the
/// engine stays.
#[verifier::external_body]
pub(crate) fn gossipsub_subscribe(engine: &mut Gossipsub, topic: String) -> (accepted: bool)
    ensures
        accepted == !gossipsub_subscribed(*old(engine), topic@),
        gossipsub_mesh_n(*final(engine)) == gossipsub_mesh_n(*old(engine)),
        forall|other: Seq<char>| #[trigger]
            gossipsub_subscribed(*old(engine), other) ==> gossipsub_subscribed(
                *final(engine),
                other,
            ),
        gossipsub_mesh_n(*old(engine)) > 0 ==> gossipsub_subscribed(*final(engine), topic@),
{
    engine.subscribe(Topic::new(topic))
}

/// `Gossipsub::unsubscribe` on the topic named `topic`. The engine answers
/// `true` if it was subscribed and `false` if it was not. An engine that was
/// not subscribed is left as it was. Otherwise the engine leaves the topic:
/// the entry for the topic is taken out of its mesh. No entry is added to the
/// mesh, and the set-up of the engine stays.
#[verifier::external_body]
pub(crate) fn gossipsub_unsubscribe(engine: &mut Gossipsub, topic: String) -> (accepted: bool)
    ensures
        accepted == gossipsub_subscribed(*old(engine), topic@),
        gossipsub_mesh_n(*final(engine)) == gossipsub_mesh_n(*old(engine)),
        forall|other: Seq<char>| #[trigger]
            gossipsub_subscribed(*final(engine), other) ==> gossipsub_subscribed(
                *old(engine),
                other,
            ),
        !gossipsub_subscribed(*final(engine), topic@),
{
    engine.unsubscribe(Topic::new(topic))
}

/// What `Gossipsub::propagate_message` answers for a message id and the peer
/// the message came from, given the engine as it is before the call.
pub uninterp spec fn gossipsub_propagate_answer(
    engine: Gossipsub,
    message_id: MessageId,
    source: PeerId,
) -> bool;

/// `Gossipsub::propagate_message`: asks the engine to forward a message it
/// still holds to the peers of its mesh, leaving out the peer it came from.
/// The engine answers `true` if it still holds the message and has forwarded
/// it, and `false` if it does not hold it; the answer is decided by the
/// engine's state before the call. The mesh and the set-up of the engine are
/// only read. Nothing is said of what the engine queues.
#[verifier::external_body]
pub(crate) fn gossipsub_propagate(
    engine: &mut Gossipsub,
    message_id: &MessageId,
    source: &PeerId,
) -> (forwarded: bool)
    ensures
        forwarded == gossipsub_propagate_answer(*old(engine), *message_id, *source),
        gossipsub_mesh_n(*final(engine)) == gossipsub_mesh_n(*old(engine)),
        forall|other: Seq<char>| #[trigger]
            gossipsub_subscribed(*final(engine), other) == gossipsub_subscribed(
                *old(engine),
                other,
            ),
{
    engine.propagate_message(message_id, source)
}

} // verus!
