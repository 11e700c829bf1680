//! From the options of the command line to the settings of a node.

use crate::address::clone_multiaddr;
use crate::identity::is_ed25519;
use crate::identity::key_peer;
use crate::identity::peer_bytes;
use crate::node::NodeConfig;
use crate::p2p::config::default_settings;
use crate::p2p::config::P2PConfigBuilder;
use crate::p2p::config::Settings;
use libp2p::Multiaddr;
use vstd::prelude::*;

verus! {

/// The options of a node, as given on the command line.
pub struct Opt {
    /// A peer to reach out to at start.
    pub peer: Option<Multiaddr>,
    /// The host of the control plane.
    pub http_host: String,
    /// The port of the control plane.
    pub http_port: u16,
    /// The port of the peer-to-peer listener.
    pub p2p_port: u16,
}

/// The bootstrap peers that the options name: the one given, or none.
pub open spec fn bootstrap_peers(peer: Option<Multiaddr>) -> Seq<Multiaddr> {
    match peer {
        Some(address) => seq![address],
        None => Seq::<Multiaddr>::empty(),
    }
}

/// The settings of the node that the options describe: the control plane
/// where they say, and a peer-to-peer server with the default host, the
/// given port, a fresh identity, and the given peer, if any, to reach out
/// to.
pub fn node_config_from_args(opt: &Opt) -> (config: NodeConfig)
    ensures
        config.http_host@ == opt.http_host@,
        config.http_port == opt.http_port,
        config.p2p@ == (Settings {
            port: opt.p2p_port,
            peers: bootstrap_peers(opt.peer),
            ..default_settings(config.p2p@.private_key, config.p2p@.peer_id)
        }),
        is_ed25519(config.p2p@.private_key),
        peer_bytes(config.p2p@.peer_id) == key_peer(config.p2p@.private_key),
{
    let mut p2p_config = P2PConfigBuilder::default().set_port(opt.p2p_port).build();
    match &opt.peer {
        Some(p) => {
            p2p_config.add_peer(clone_multiaddr(p));
            assert(p2p_config@.peers =~= bootstrap_peers(opt.peer));
        },
        None => {},
    }
    NodeConfig::new(opt.http_host.clone(), opt.http_port, p2p_config)
}

} // verus!
