//! How the two halves of the network behaviour act on each other's events:
//! what is made of an inbound message, and how peer discovery moves the
//! partial view of the publish/subscribe layer.

use crate::identity::peer_bytes;
use crate::pubsub::add_node_to_partial_view;
use crate::pubsub::remove_node_from_partial_view;
use crate::pubsub::state_of;
use crate::pubsub::FloodsubState;
use libp2p::floodsub::Floodsub;
use libp2p::mdns::Mdns;
use libp2p::PeerId;
use serde_json::Error;
use serde_json::Value;
use vstd::prelude::*;
use vstd::utf8::decode_utf8;
use vstd::utf8::valid_utf8;

verus! {

/// A parsed JSON document, seen through its compact rendering.
#[verifier::external_type_specification]
#[verifier::external_body]
pub struct ExValue(Value);

/// The error of the JSON parser. Only its presence is looked at.
#[verifier::external_type_specification]
#[verifier::external_body]
pub struct ExJsonError(Error);

/// The mDNS discovery behaviour. Only its table of discovered peers is
/// looked at, and only to ask whether a peer is in it.
#[verifier::external_type_specification]
#[verifier::external_body]
pub struct ExMdns(Mdns);

/// The peers that discovery holds a live record of, each by the bytes of its
/// identifier.
pub uninterp spec fn tracked_peers(mdns: Mdns) -> Set<Seq<u8>>;

/// The compact text of a JSON document: what `Value::to_string` gives.
pub uninterp spec fn json_rendering(value: Value) -> Seq<char>;

/// What the JSON parser makes of a text: the rendering of the document it
/// reads, or `None` where it rejects the text.
pub uninterp spec fn parsed_json(text: Seq<char>) -> Option<Seq<char>>;

/// The text that lossy UTF-8 decoding makes of some bytes: ill-formed
/// sequences come out as the replacement character.
pub uninterp spec fn utf8_lossy(bytes: Seq<u8>) -> Seq<char>;

/// `Mdns::has_node`: whether discovery holds a live record of the peer.
#[verifier::external_body]
fn has_node(mdns: &Mdns, peer: &PeerId) -> (known: bool)
    ensures
        known == tracked_peers(*mdns).contains(peer_bytes(*peer)),
{
    mdns.has_node(peer)
}

/// `serde_json::from_str` at type `Value`. The parser accepts or rejects by
/// the text alone; the claim is that the outcome is the one named
/// `parsed_json`.
#[verifier::external_body]
fn parse_json(text: &str) -> (r: Result<Value, Error>)
    ensures
        match r {
            Ok(value) => parsed_json(text@) == Some(json_rendering(value)),
            Err(_) => parsed_json(text@) is None,
        },
{
    serde_json::from_str::<Value>(text)
}

/// `String::from_utf8_lossy`, made into an owned string. Bytes that are
/// well-formed UTF-8 come out as the text they encode.
#[verifier::external_body]
fn lossy_text(data: &[u8]) -> (text: String)
    ensures
        text@ == utf8_lossy(data@),
        valid_utf8(data@) ==> text@ == decode_utf8(data@),
{
    String::from_utf8_lossy(data).into_owned()
}

/// What the decoder made of a payload.
pub enum Decoded {
    /// The payload is a JSON document.
    Json(Value),
    /// The payload is not JSON. It is reported and dropped.
    Malformed,
}

/// An inbound message after decoding: its text, and the document in it if
/// there is one.
pub struct Received {
    pub source: PeerId,
    pub text: String,
    pub decoded: Decoded,
}

/// An event of the publish/subscribe layer, reduced to what the node reads.
pub enum PubSubEvent {
    /// A message arrived from `source`.
    Message { source: PeerId, data: Vec<u8> },
    /// A remote peer subscribed to or unsubscribed from a topic.
    SubscriptionChanged,
}

/// An event of peer discovery, reduced to the peers it names.
pub enum DiscoveryEvent {
    /// These peers were seen on the local network.
    Discovered(Vec<PeerId>),
    /// Records of these peers ran out.
    Expired(Vec<PeerId>),
}

/// A peer whose record ran out, together with whether discovery still holds
/// another live record of it.
pub struct ExpiredPeer {
    pub peer: PeerId,
    pub still_known: bool,
}

/// What the parser's result amounts to: a document, or a malformed payload.
pub fn decoded_from_parse(parsed: Result<Value, Error>) -> (decoded: Decoded)
    ensures
        match (decoded, parsed) {
            (Decoded::Json(value), Ok(given)) => value == given,
            (Decoded::Malformed, Err(_)) => true,
            _ => false,
        },
{
    match parsed {
        Ok(value) => Decoded::Json(value),
        Err(_) => Decoded::Malformed,
    }
}

/// Whether `decoded` is what decoding `text` must give.
pub open spec fn decodes_to(text: Seq<char>, decoded: Decoded) -> bool {
    match decoded {
        Decoded::Json(value) => parsed_json(text) == Some(json_rendering(value)),
        Decoded::Malformed => parsed_json(text) is None,
    }
}

/// Decodes a payload text. Every text has an outcome: a malformed one is an
/// outcome like any other, never a fault.
pub fn decode_payload(text: &str) -> (decoded: Decoded)
    ensures
        decodes_to(text@, decoded),
{
    decoded_from_parse(parse_json(text))
}

/// Handles an event of the publish/subscribe layer.
///
/// A message is decoded, lossily as text and then as JSON, and handed back
/// for reporting whether or not it is well-formed. Any other event is
/// ignored.
pub fn inject_pubsub_event(event: PubSubEvent) -> (received: Option<Received>)
    ensures
        match event {
            PubSubEvent::Message { source, data } => {
                &&& received is Some
                &&& received->0.source == source
                &&& received->0.text@ == utf8_lossy(data@)
                &&& valid_utf8(data@) ==> received->0.text@ == decode_utf8(data@)
                &&& decodes_to(utf8_lossy(data@), received->0.decoded)
            },
            PubSubEvent::SubscriptionChanged => received is None,
        },
{
    match event {
        PubSubEvent::Message { source, data } => {
            let text = lossy_text(data.as_slice());
            let decoded = decode_payload(text.as_str());
            Some(Received { source, text, decoded })
        },
        PubSubEvent::SubscriptionChanged => None,
    }
}

/// The peers named in a discovery notice.
pub open spec fn discovered_peers(peers: Seq<PeerId>) -> Set<Seq<u8>> {
    Set::new(|bytes: Seq<u8>| exists|i: int| 0 <= i < peers.len() && peer_bytes(peers[i]) == bytes)
}

/// The peers that an expiry notice evicts: those with an entry for which
/// discovery holds no other live record.
pub open spec fn evicted_peers(expired: Seq<ExpiredPeer>) -> Set<Seq<u8>> {
    Set::new(
        |bytes: Seq<u8>|
            exists|i: int|
                0 <= i < expired.len() && !expired[i].still_known && peer_bytes(expired[i].peer)
                    == bytes,
    )
}

/// The partial view after a discovery notice: every peer named in it joins,
/// whatever the view held.
pub open spec fn view_after_discovered(view: Set<Seq<u8>>, peers: Seq<PeerId>) -> Set<Seq<u8>> {
    view.union(discovered_peers(peers))
}

/// The partial view after an expiry notice: a peer leaves only if discovery
/// no longer knows it.
pub open spec fn view_after_expired(view: Set<Seq<u8>>, expired: Seq<ExpiredPeer>) -> Set<
    Seq<u8>,
> {
    view.difference(evicted_peers(expired))
}

/// The peers of an expiry notice, each with whether it is among the peers
/// `live` that discovery still holds a record of.
pub open spec fn expiry_entries(peers: Seq<PeerId>, live: Set<Seq<u8>>) -> Seq<ExpiredPeer> {
    Seq::new(
        peers.len(),
        |i: int| ExpiredPeer { peer: peers[i], still_known: live.contains(peer_bytes(peers[i])) },
    )
}

/// The partial view after a discovery event, where discovery holds a record
/// of the peers `live`.
pub open spec fn view_after(view: Set<Seq<u8>>, event: DiscoveryEvent, live: Set<Seq<u8>>) -> Set<
    Seq<u8>,
> {
    match event {
        DiscoveryEvent::Discovered(peers) => view_after_discovered(view, peers@),
        DiscoveryEvent::Expired(peers) => view_after_expired(
            view,
            expiry_entries(peers@, live),
        ),
    }
}

/// The peers that discovery knows when it holds the records `table`, each a
/// peer paired with a source that vouches for it.
pub open spec fn tracked_by(table: Set<(Seq<u8>, Seq<u8>)>) -> Set<Seq<u8>> {
    Set::new(|peer: Seq<u8>| exists|source: Seq<u8>| table.contains((peer, source)))
}

/// A peer that two sources vouch for outlives the expiry of one of them: it
/// stays in the partial view while the other source's record is live, and
/// leaves with the expiry of the last.
///
/// Here `table` is what discovery held before it saw the peer, and `a` and
/// `b` are the two sources; no third source vouches for the peer.
pub proof fn lemma_expiry_spares_peer_with_live_source(
    view: Set<Seq<u8>>,
    table: Set<(Seq<u8>, Seq<u8>)>,
    peer: PeerId,
    a: Seq<u8>,
    b: Seq<u8>,
)
    requires
        a != b,
        forall|source: Seq<u8>|
            table.contains((peer_bytes(peer), source)) ==> source == a || source == b,
    ensures
        ({
            let id = peer_bytes(peer);
            let seen_by_a = view_after_discovered(view, seq![peer]);
            let seen_by_both = view_after_discovered(seen_by_a, seq![peer]);
            let table_both = table.insert((id, a)).insert((id, b));
            let table_b = table_both.remove((id, a));
            let after_a_expired = view_after_expired(
                seen_by_both,
                expiry_entries(seq![peer], tracked_by(table_b)),
            );
            let table_none = table_b.remove((id, b));
            let after_b_expired = view_after_expired(
                after_a_expired,
                expiry_entries(seq![peer], tracked_by(table_none)),
            );
            &&& seen_by_both.contains(id)
            &&& after_a_expired.contains(id)
            &&& !after_b_expired.contains(id)
        }),
{
    let id = peer_bytes(peer);
    let seen_by_a = view_after_discovered(view, seq![peer]);
    let seen_by_both = view_after_discovered(seen_by_a, seq![peer]);
    let table_both = table.insert((id, a)).insert((id, b));
    let table_b = table_both.remove((id, a));
    let table_none = table_b.remove((id, b));
    assert(seq![peer][0] == peer);
    assert(discovered_peers(seq![peer]).contains(id));
    assert(table_b.contains((id, b)));
    assert(tracked_by(table_b).contains(id));
    let first = expiry_entries(seq![peer], tracked_by(table_b));
    assert(!evicted_peers(first).contains(id)) by {
        if evicted_peers(first).contains(id) {
            let k = choose|k: int|
                0 <= k < first.len() && !first[k].still_known && peer_bytes(first[k].peer) == id;
            assert(first[k].still_known);
        }
    }
    assert(!tracked_by(table_none).contains(id)) by {
        if tracked_by(table_none).contains(id) {
            let source = choose|source: Seq<u8>| table_none.contains((id, source));
            assert(table.contains((id, source)));
        }
    }
    let last = expiry_entries(seq![peer], tracked_by(table_none));
    assert(last[0].peer == peer && !last[0].still_known);
    assert(evicted_peers(last).contains(id));
}

/// Adds every peer of a discovery notice to the partial view.
pub fn add_discovered(floodsub: &mut Floodsub, peers: &Vec<PeerId>)
    ensures
        state_of(*final(floodsub)) == (FloodsubState {
            partial_view: view_after_discovered(state_of(*old(floodsub)).partial_view, peers@),
            ..state_of(*old(floodsub))
        }),
{
    let mut i: usize = 0;
    while i < peers.len()
        invariant
            i <= peers.len(),
            state_of(*floodsub).partial_view == state_of(*old(floodsub)).partial_view.union(
                discovered_peers(peers@.take(i as int)),
            ),
            state_of(*floodsub) == (FloodsubState {
                partial_view: state_of(*floodsub).partial_view,
                ..state_of(*old(floodsub))
            }),
        decreases peers.len() - i,
    {
        add_node_to_partial_view(floodsub, peers[i]);
        proof {
            let done = peers@.take(i as int);
            let next = peers@.take(i + 1);
            assert forall|bytes: Seq<u8>|
                discovered_peers(next).contains(bytes) <==> discovered_peers(done).contains(bytes)
                    || bytes == peer_bytes(peers@[i as int]) by {
                if discovered_peers(next).contains(bytes) {
                    let k = choose|k: int| 0 <= k < next.len() && peer_bytes(next[k]) == bytes;
                    if k < i {
                        assert(done[k] == next[k]);
                    }
                }
                if discovered_peers(done).contains(bytes) {
                    let k = choose|k: int| 0 <= k < done.len() && peer_bytes(done[k]) == bytes;
                    assert(next[k] == done[k]);
                }
                if bytes == peer_bytes(peers@[i as int]) {
                    assert(next[i as int] == peers@[i as int]);
                }
            }
            assert(state_of(*floodsub).partial_view =~= state_of(*old(floodsub)).partial_view.union(
                discovered_peers(next),
            ));
        }
        i += 1;
    }
    assert(peers@.take(i as int) =~= peers@);
}

/// Removes from the partial view every peer of an expiry notice that
/// discovery no longer knows. A peer that another record still vouches for
/// stays.
pub fn remove_expired(floodsub: &mut Floodsub, expired: &Vec<ExpiredPeer>)
    ensures
        state_of(*final(floodsub)) == (FloodsubState {
            partial_view: view_after_expired(state_of(*old(floodsub)).partial_view, expired@),
            ..state_of(*old(floodsub))
        }),
{
    let mut i: usize = 0;
    while i < expired.len()
        invariant
            i <= expired.len(),
            state_of(*floodsub).partial_view == state_of(*old(floodsub)).partial_view.difference(
                evicted_peers(expired@.take(i as int)),
            ),
            state_of(*floodsub) == (FloodsubState {
                partial_view: state_of(*floodsub).partial_view,
                ..state_of(*old(floodsub))
            }),
        decreases expired.len() - i,
    {
        if !expired[i].still_known {
            remove_node_from_partial_view(floodsub, &expired[i].peer);
        }
        proof {
            let done = expired@.take(i as int);
            let next = expired@.take(i + 1);
            let entry = expired@[i as int];
            assert forall|bytes: Seq<u8>|
                evicted_peers(next).contains(bytes) <==> evicted_peers(done).contains(bytes) || (
                !entry.still_known && bytes == peer_bytes(entry.peer)) by {
                if evicted_peers(next).contains(bytes) {
                    let k = choose|k: int|
                        0 <= k < next.len() && !next[k].still_known && peer_bytes(next[k].peer)
                            == bytes;
                    if k < i {
                        assert(done[k] == next[k]);
                    }
                }
                if evicted_peers(done).contains(bytes) {
                    let k = choose|k: int|
                        0 <= k < done.len() && !done[k].still_known && peer_bytes(done[k].peer)
                            == bytes;
                    assert(next[k] == done[k]);
                }
                if !entry.still_known && bytes == peer_bytes(entry.peer) {
                    assert(next[i as int] == entry);
                }
            }
            assert(state_of(*floodsub).partial_view =~= state_of(
                *old(floodsub),
            ).partial_view.difference(evicted_peers(next)));
        }
        i += 1;
    }
    assert(expired@.take(i as int) =~= expired@);
}

/// Asks discovery, for each peer of an expiry notice, whether it still
/// knows the peer.
pub fn expired_peers(mdns: &Mdns, peers: &Vec<PeerId>) -> (expired: Vec<ExpiredPeer>)
    ensures
        expired@ == expiry_entries(peers@, tracked_peers(*mdns)),
{
    let mut expired: Vec<ExpiredPeer> = Vec::new();
    let mut i: usize = 0;
    while i < peers.len()
        invariant
            i <= peers.len(),
            expired@ == expiry_entries(peers@.take(i as int), tracked_peers(*mdns)),
        decreases peers.len() - i,
    {
        let peer = peers[i];
        let still_known = has_node(mdns, &peer);
        expired.push(ExpiredPeer { peer, still_known });
        assert(expired@ =~= expiry_entries(peers@.take(i + 1), tracked_peers(*mdns)));
        i += 1;
    }
    assert(peers@.take(i as int) =~= peers@);
    expired
}

/// Handles an event of peer discovery by moving the partial view of the
/// publish/subscribe layer.
///
/// Every discovered peer is added, whatever the view held. An expired peer
/// is removed only if discovery itself no longer knows it: a peer that
/// another record still vouches for stays. Subscriptions are not touched.
pub fn inject_discovery_event(floodsub: &mut Floodsub, mdns: &Mdns, event: &DiscoveryEvent)
    ensures
        state_of(*final(floodsub)) == (FloodsubState {
            partial_view: view_after(
                state_of(*old(floodsub)).partial_view,
                *event,
                tracked_peers(*mdns),
            ),
            ..state_of(*old(floodsub))
        }),
{
    match event {
        DiscoveryEvent::Discovered(peers) => add_discovered(floodsub, peers),
        DiscoveryEvent::Expired(peers) => {
            let expired = expired_peers(mdns, peers);
            remove_expired(floodsub, &expired)
        },
    }
}

} // verus!
