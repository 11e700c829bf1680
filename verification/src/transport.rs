//! Transports: an authenticated, multiplexed stream over a stream socket,
//! bare or wrapped in the text-subprotocol framing.

use crate::address::TransportType;
use crate::identity::is_ed25519;
use crate::identity::key_peer;
use libp2p::identity::Keypair;
use libp2p::mplex::MplexConfig;
use libp2p::noise::NoiseConfig;
use libp2p::noise::NoiseError;
use libp2p::noise::X25519Spec;
use libp2p::tcp::TokioTcpConfig;
use libp2p::websocket::WsConfig;
use libp2p::PeerId;
use libp2p::Transport;
use vstd::prelude::*;

verus! {

/// A transport with its connection types boxed away.
#[verifier::external_type_specification]
#[verifier::external_body]
#[verifier::reject_recursive_types(O)]
pub struct ExBoxed<O>(libp2p::core::transport::Boxed<O>);

/// A boxed stream multiplexer.
#[verifier::external_type_specification]
#[verifier::external_body]
pub struct ExStreamMuxerBox(libp2p::core::muxing::StreamMuxerBox);

/// The error of the noise handshake set-up. Only its presence is looked at.
#[verifier::external_type_specification]
#[verifier::external_body]
pub struct ExNoiseError(NoiseError);

/// A boxed transport that yields, for each connection, the remote peer and a
/// stream multiplexer.
pub type BoxedTransport = libp2p::core::transport::Boxed<
    (PeerId, libp2p::core::muxing::StreamMuxerBox),
>;

/// The bytes of the peer identifier that a transport authenticates as: that
/// of the identity key which signed its handshake key.
pub uninterp spec fn transport_identity(transport: BoxedTransport) -> Seq<u8>;

/// The `TCP_NODELAY` setting of the sockets of a transport: whether send
/// coalescing is switched off.
pub uninterp spec fn transport_nodelay(transport: BoxedTransport) -> bool;

/// Whether a transport runs over the text-subprotocol framing.
pub uninterp spec fn transport_over_ws(transport: BoxedTransport) -> bool;

/// Whether `transport` is the transport of the carrier `mode` for the
/// identity `key`: it authenticates as the peer that the key determines,
/// has send coalescing switched off, and runs over the text-subprotocol
/// framing exactly for that carrier.
pub open spec fn transport_for(transport: BoxedTransport, key: Keypair, mode: TransportType) -> bool {
    &&& transport_identity(transport) == key_peer(key)
    &&& transport_nodelay(transport)
    &&& transport_over_ws(transport) == (mode == TransportType::Ws)
}

/// Why a transport could not be built.
#[derive(Clone, Copy, Debug, PartialEq, Eq, Structural)]
pub enum TransportError {
    /// The handshake keys could not be derived from the identity.
    Handshake,
}

/// Builds the direct transport: a fresh Diffie-Hellman key signed with
/// `local_key` (`noise::Keypair::new`, `into_authentic`), then a tokio TCP
/// transport with the given `nodelay` setting, upgraded with the noise XX
/// handshake and mplex, and boxed. The one step that can fail is the
/// signing, and `Keypair::sign` does not fail for an Ed25519 key: with such
/// a key the transport is built. What is built authenticates as the peer
/// of `local_key`, has the `nodelay` setting given, and is not framed.
#[verifier::external_body]
fn build_tcp(local_key: &Keypair, nodelay: bool) -> (built: Result<
    BoxedTransport,
    NoiseError,
>)
    ensures
        is_ed25519(*local_key) ==> built is Ok,
        built matches Ok(transport) ==> transport_identity(transport) == key_peer(*local_key),
        built matches Ok(transport) ==> transport_nodelay(transport) == nodelay,
        built matches Ok(transport) ==> !transport_over_ws(transport),
{
    let noise_keys = libp2p::noise::Keypair::<X25519Spec>::new().into_authentic(local_key)?;
    Ok(
        TokioTcpConfig::new()
            .nodelay(nodelay)
            .upgrade(libp2p::core::upgrade::Version::V1)
            .authenticate(NoiseConfig::xx(noise_keys).into_authenticated())
            .multiplex(MplexConfig::new())
            .boxed(),
    )
}

/// Builds the text-subprotocol transport: as `build_tcp`, with the TCP
/// transport wrapped by `WsConfig::new` before it is upgraded. Here too the
/// one step that can fail is the signing, which an Ed25519 key rules out.
/// What is built authenticates as the peer of `local_key`, has the
/// `nodelay` setting given, and is framed.
#[verifier::external_body]
fn build_ws(local_key: &Keypair, nodelay: bool) -> (built: Result<
    BoxedTransport,
    NoiseError,
>)
    ensures
        is_ed25519(*local_key) ==> built is Ok,
        built matches Ok(transport) ==> transport_identity(transport) == key_peer(*local_key),
        built matches Ok(transport) ==> transport_nodelay(transport) == nodelay,
        built matches Ok(transport) ==> transport_over_ws(transport),
{
    let noise_keys = libp2p::noise::Keypair::<X25519Spec>::new().into_authentic(local_key)?;
    Ok(
        WsConfig::new(TokioTcpConfig::new().nodelay(nodelay))
            .upgrade(libp2p::core::upgrade::Version::V1)
            .authenticate(NoiseConfig::xx(noise_keys).into_authenticated())
            .multiplex(MplexConfig::new())
            .boxed(),
    )
}

/// Turns the builder's verdict into the library's: the transport, or
/// `Handshake`.
pub fn transport_from_build(built: Result<BoxedTransport, NoiseError>) -> (r:
    Result<BoxedTransport, TransportError>)
    ensures
        match (r, built) {
            (Ok(transport), Ok(given)) => transport == given,
            (Err(e), Err(_)) => e == TransportError::Handshake,
            _ => false,
        },
{
    match built {
        Ok(transport) => Ok(transport),
        Err(_) => Err(TransportError::Handshake),
    }
}

/// The direct transport for the identity `local_key`, with send coalescing
/// switched off.
///
/// With an Ed25519 identity the transport is always built. With another
/// kind of key the derivation of the handshake keys may fail, and the error
/// is then `Handshake`. A transport that is built authenticates as the peer
/// of `local_key`.
pub fn config_transport(local_key: &Keypair) -> (r: Result<
    BoxedTransport,
    TransportError,
>)
    ensures
        is_ed25519(*local_key) ==> r is Ok,
        r matches Ok(transport) ==> transport_for(transport, *local_key, TransportType::Tcp),
        r matches Err(e) ==> e == TransportError::Handshake,
{
    transport_from_build(build_tcp(local_key, true))
}

/// The text-subprotocol transport for the identity `local_key`, with send
/// coalescing switched off.
///
/// It is built, or fails, on the same identities as the direct transport.
pub fn config_ws_transport(local_key: &Keypair) -> (r: Result<
    BoxedTransport,
    TransportError,
>)
    ensures
        is_ed25519(*local_key) ==> r is Ok,
        r matches Ok(transport) ==> transport_for(transport, *local_key, TransportType::Ws),
        r matches Err(e) ==> e == TransportError::Handshake,
{
    transport_from_build(build_ws(local_key, true))
}

/// The transport of the given carrier for the identity `local_key`.
///
/// With an Ed25519 identity the transport is always built, whichever the
/// carrier; otherwise the only error is `Handshake`.
pub fn build_transport(local_key: &Keypair, mode: TransportType) -> (r: Result<
    BoxedTransport,
    TransportError,
>)
    ensures
        is_ed25519(*local_key) ==> r is Ok,
        r matches Ok(transport) ==> transport_for(transport, *local_key, mode),
        r matches Err(e) ==> e == TransportError::Handshake,
{
    match mode {
        TransportType::Tcp => config_transport(local_key),
        TransportType::Ws => config_ws_transport(local_key),
    }
}

} // verus!
