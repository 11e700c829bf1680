//! The publish/subscribe layer: libp2p's floodsub behaviour, seen through
//! the parts of its state that the node's logic relies on.

use crate::identity::peer_bytes;
use libp2p::floodsub::Floodsub;
use libp2p::floodsub::Topic;
use libp2p::PeerId;
use vstd::prelude::*;

verus! {

/// A floodsub topic: a named channel.
#[verifier::external_type_specification]
#[verifier::external_body]
pub struct ExTopic(Topic);

/// The floodsub behaviour. Its filters stay out of sight; the names below
/// stand for the parts that the contracts speak of.
#[verifier::external_type_specification]
#[verifier::external_body]
pub struct ExFloodsub(Floodsub);

/// A message on its way to a peer: the topics it belongs to and its payload.
pub struct Outgoing {
    pub topics: Seq<Seq<char>>,
    pub data: Seq<u8>,
}

/// The name of a topic: what `Topic::id` gives.
pub uninterp spec fn topic_id(topic: Topic) -> Seq<char>;

/// The bytes of the identifier that the behaviour publishes under.
pub uninterp spec fn local_peer(floodsub: Floodsub) -> Seq<u8>;

/// The partial view: the peers that messages are propagated to, each by the
/// bytes of its identifier.
pub uninterp spec fn partial_view(floodsub: Floodsub) -> Set<Seq<u8>>;

/// The names of the topics that the local node is subscribed to, in the order
/// in which it subscribed.
pub uninterp spec fn subscriptions(floodsub: Floodsub) -> Seq<Seq<char>>;

/// The connected peers, each with the names of the topics that it has
/// subscribed to.
pub uninterp spec fn remote_topics(floodsub: Floodsub) -> Map<Seq<u8>, Set<Seq<char>>>;

/// The messages that the behaviour has queued for the network stack to
/// send, by the peer they go to, each peer's in the order in which they were
/// queued. A peer that nothing is queued for has no entry.
pub uninterp spec fn pending(floodsub: Floodsub) -> Map<Seq<u8>, Seq<Outgoing>>;

/// What the contracts see of the behaviour.
pub struct FloodsubState {
    pub local_peer: Seq<u8>,
    pub partial_view: Set<Seq<u8>>,
    pub subscriptions: Seq<Seq<char>>,
    pub remote_topics: Map<Seq<u8>, Set<Seq<char>>>,
    pub pending: Map<Seq<u8>, Seq<Outgoing>>,
}

/// The state of a behaviour.
pub open spec fn state_of(floodsub: Floodsub) -> FloodsubState {
    FloodsubState {
        local_peer: local_peer(floodsub),
        partial_view: partial_view(floodsub),
        subscriptions: subscriptions(floodsub),
        remote_topics: remote_topics(floodsub),
        pending: pending(floodsub),
    }
}

/// The state of a behaviour that was just built for `local_peer`.
pub open spec fn fresh_state(local_peer: Seq<u8>) -> FloodsubState {
    FloodsubState {
        local_peer,
        partial_view: Set::empty(),
        subscriptions: Seq::empty(),
        remote_topics: Map::empty(),
        pending: Map::empty(),
    }
}

/// Whether a message on `topic` reaches `peer`: the peer is connected and
/// has subscribed to the topic.
pub open spec fn reaches(remote: Map<Seq<u8>, Set<Seq<char>>>, peer: Seq<u8>, topic: Seq<char>) -> bool {
    remote.contains_key(peer) && remote[peer].contains(topic)
}

/// The messages queued for `peer`.
pub open spec fn queued(pending: Map<Seq<u8>, Seq<Outgoing>>, peer: Seq<u8>) -> Seq<Outgoing> {
    if pending.contains_key(peer) {
        pending[peer]
    } else {
        Seq::empty()
    }
}

/// The queue after `data` was published on `topic`: if the local node is
/// subscribed to the topic, the message is queued, behind what was queued
/// before, for every peer that it reaches. Otherwise nothing is queued.
pub open spec fn pending_after_publish(state: FloodsubState, topic: Seq<char>, data: Seq<u8>) -> Map<
    Seq<u8>,
    Seq<Outgoing>,
> {
    if state.subscriptions.contains(topic) {
        Map::new(
            |peer: Seq<u8>|
                state.pending.contains_key(peer) || reaches(state.remote_topics, peer, topic),
            |peer: Seq<u8>|
                if reaches(state.remote_topics, peer, topic) {
                    queued(state.pending, peer).push(Outgoing { topics: seq![topic], data })
                } else {
                    state.pending[peer]
                },
        )
    } else {
        state.pending
    }
}

/// Publishing on a topic that the local node is subscribed to queues the
/// message for a peer that is subscribed to the topic, and queues nothing
/// for a peer that is not.
pub proof fn lemma_publish_reaches_subscribers_only(
    state: FloodsubState,
    topic: Seq<char>,
    data: Seq<u8>,
    subscriber: Seq<u8>,
    other: Seq<u8>,
)
    requires
        state.subscriptions.contains(topic),
        reaches(state.remote_topics, subscriber, topic),
        !reaches(state.remote_topics, other, topic),
    ensures
        queued(pending_after_publish(state, topic, data), subscriber) == queued(
            state.pending,
            subscriber,
        ).push(Outgoing { topics: seq![topic], data }),
        queued(pending_after_publish(state, topic, data), other) == queued(state.pending, other),
{
}

/// `Topic::new`: the topic with the given name.
#[verifier::external_body]
pub fn generate_floodsub_topic(name: &str) -> (topic: Topic)
    ensures
        topic_id(topic) == name@,
{
    Topic::new(name)
}

/// `Topic::clone`: a copy of the topic, equal to the one copied.
#[verifier::external_body]
pub(crate) fn clone_topic(topic: &Topic) -> (copy: Topic)
    ensures
        copy == *topic,
{
    topic.clone()
}

/// `Floodsub::new`: a behaviour for the given local peer. It knows no peer,
/// is subscribed to nothing, and has nothing queued.
#[verifier::external_body]
fn new_floodsub(local_peer_id: PeerId) -> (floodsub: Floodsub)
    ensures
        local_peer(floodsub) == peer_bytes(local_peer_id),
        partial_view(floodsub) == Set::<Seq<u8>>::empty(),
        subscriptions(floodsub) == Seq::<Seq<char>>::empty(),
        remote_topics(floodsub) == fresh_state(peer_bytes(local_peer_id)).remote_topics,
        pending(floodsub) == fresh_state(peer_bytes(local_peer_id)).pending,
{
    Floodsub::new(local_peer_id)
}

/// `Floodsub::subscribe`: adds the topic to the subscriptions unless one of
/// that name is there already, and says whether it was added. The connected
/// peers are told, which queues no message.
#[verifier::external_body]
fn subscribe(floodsub: &mut Floodsub, topic: Topic) -> (added: bool)
    ensures
        added == !subscriptions(*old(floodsub)).contains(topic_id(topic)),
        state_of(*final(floodsub)) == (FloodsubState {
            subscriptions: if added {
                subscriptions(*old(floodsub)).push(topic_id(topic))
            } else {
                subscriptions(*old(floodsub))
            },
            ..state_of(*old(floodsub))
        }),
{
    floodsub.subscribe(topic)
}

/// `Floodsub::publish`: if the local node is subscribed to the topic, the
/// message is queued once for every connected peer that is subscribed to
/// the topic. Nothing else that the contracts see is touched.
#[verifier::external_body]
pub(crate) fn publish(floodsub: &mut Floodsub, topic: Topic, data: Vec<u8>)
    ensures
        state_of(*final(floodsub)) == (FloodsubState {
            pending: pending_after_publish(state_of(*old(floodsub)), topic_id(topic), data@),
            ..state_of(*old(floodsub))
        }),
{
    floodsub.publish(topic, data)
}

/// `Floodsub::add_node_to_partial_view`: the peer joins the partial view.
/// What is queued on that account, a dial and the local subscriptions, is
/// no message.
#[verifier::external_body]
pub(crate) fn add_node_to_partial_view(floodsub: &mut Floodsub, peer: PeerId)
    ensures
        state_of(*final(floodsub)) == (FloodsubState {
            partial_view: partial_view(*old(floodsub)).insert(peer_bytes(peer)),
            ..state_of(*old(floodsub))
        }),
{
    floodsub.add_node_to_partial_view(peer)
}

/// `Floodsub::remove_node_from_partial_view`: the peer leaves the partial
/// view.
#[verifier::external_body]
pub(crate) fn remove_node_from_partial_view(floodsub: &mut Floodsub, peer: &PeerId)
    ensures
        state_of(*final(floodsub)) == (FloodsubState {
            partial_view: partial_view(*old(floodsub)).remove(peer_bytes(*peer)),
            ..state_of(*old(floodsub))
        }),
{
    floodsub.remove_node_from_partial_view(peer)
}

/// Builds the publish/subscribe behaviour of a node: it publishes under
/// `local_peer_id`, is subscribed to `topic` alone, and knows no peer yet.
pub fn floodsub_behaviour(local_peer_id: PeerId, topic: Topic) -> (floodsub: Floodsub)
    ensures
        state_of(floodsub) == (FloodsubState {
            subscriptions: seq![topic_id(topic)],
            ..fresh_state(peer_bytes(local_peer_id))
        }),
{
    let mut floodsub = new_floodsub(local_peer_id);
    let added = subscribe(&mut floodsub, topic);
    assert(subscriptions(floodsub) =~= seq![topic_id(topic)]);
    floodsub
}

} // verus!
