//! The node's identity: a private key and the peer identifier derived from
//! its public half.

use libp2p::identity::Keypair;
use libp2p::PeerId;
use vstd::prelude::*;

verus! {

/// A libp2p key pair. Nothing inside it is visible here; it is generated,
/// stored, copied and handed on.
#[verifier::external_type_specification]
#[verifier::external_body]
pub struct ExKeypair(Keypair);

/// A libp2p peer identifier, seen through the bytes it is made of.
#[verifier::external_type_specification]
#[verifier::external_body]
pub struct ExPeerId(PeerId);

/// The bytes of a peer identifier: what `PeerId::to_bytes` gives. Two
/// identifiers with the same bytes name the same peer.
pub uninterp spec fn peer_bytes(peer: PeerId) -> Seq<u8>;

/// The bytes of the peer identifier that belongs to a key pair: those of
/// `PeerId::from(key.public())`.
pub uninterp spec fn key_peer(key: Keypair) -> Seq<u8>;

/// Whether a key pair is an Ed25519 one: the `Ed25519` variant of `Keypair`.
/// Signing with such a key cannot fail.
pub uninterp spec fn is_ed25519(key: Keypair) -> bool;

/// `Keypair::generate_ed25519`: a fresh random Ed25519 key pair. Of the key
/// itself nothing is claimed, only its kind.
#[verifier::external_body]
fn generate_keypair() -> (key: Keypair)
    ensures
        is_ed25519(key),
{
    Keypair::generate_ed25519()
}

/// `PeerId::from` on `Keypair::public`: the identifier that the public half
/// of `key` hashes to. The claim is only that the result is the one the key
/// determines.
#[verifier::external_body]
fn derive_peer_id(key: &Keypair) -> (peer: PeerId)
    ensures
        peer_bytes(peer) == key_peer(*key),
{
    PeerId::from(key.public())
}

/// `Keypair::clone`: a copy of the key pair, equal to the one copied.
#[verifier::external_body]
pub(crate) fn clone_keypair(key: &Keypair) -> (copy: Keypair)
    ensures
        copy == *key,
{
    key.clone()
}

/// Generates a fresh Ed25519 key pair and the peer identifier derived from
/// it.
pub fn generate_identity() -> (identity: (Keypair, PeerId))
    ensures
        is_ed25519(identity.0),
        peer_bytes(identity.1) == key_peer(identity.0),
{
    let local_key = generate_keypair();
    let local_peer_id = derive_peer_id(&local_key);
    (local_key, local_peer_id)
}

} // verus!
