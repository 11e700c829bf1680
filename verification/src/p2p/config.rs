//! The settings of the peer-to-peer server, and the builder that collects
//! them.

use crate::address::clone_multiaddr;
use crate::identity::clone_keypair;
use crate::identity::generate_identity;
use crate::identity::is_ed25519;
use crate::identity::key_peer;
use crate::identity::peer_bytes;
use libp2p::identity::Keypair;
use libp2p::Multiaddr;
use libp2p::PeerId;
use vstd::prelude::*;
use vstd::string::StringExecFns;

verus! {

/// What a configuration holds: where to listen, under which identity, and
/// which peers to reach out to first.
pub struct Settings {
    pub host: Seq<char>,
    pub port: u16,
    pub private_key: Keypair,
    pub peer_id: PeerId,
    pub peers: Seq<Multiaddr>,
}

/// The settings a configuration starts from: every interface, port 8500, no
/// bootstrap peer, under the given identity.
pub open spec fn default_settings(private_key: Keypair, peer_id: PeerId) -> Settings {
    Settings {
        host: "0.0.0.0"@,
        port: 8500,
        private_key,
        peer_id,
        peers: Seq::<Multiaddr>::empty(),
    }
}

/// Copies a list of addresses.
pub fn clone_addresses(addresses: &Vec<Multiaddr>) -> (copy: Vec<Multiaddr>)
    ensures
        copy@ == addresses@,
{
    let mut copy: Vec<Multiaddr> = Vec::new();
    let mut i: usize = 0;
    while i < addresses.len()
        invariant
            i <= addresses.len(),
            copy@ == addresses@.take(i as int),
        decreases addresses.len() - i,
    {
        copy.push(clone_multiaddr(&addresses[i]));
        assert(copy@ =~= addresses@.take(i + 1));
        i += 1;
    }
    assert(addresses@.take(i as int) =~= addresses@);
    copy
}

/// Collects the settings of a peer-to-peer server one by one.
pub struct P2PConfigBuilder {
    host: String,
    port: u16,
    private_key: Keypair,
    peer_id: PeerId,
    peers: Vec<Multiaddr>,
}

impl View for P2PConfigBuilder {
    type V = Settings;

    closed spec fn view(&self) -> Settings {
        Settings {
            host: self.host@,
            port: self.port,
            private_key: self.private_key,
            peer_id: self.peer_id,
            peers: self.peers@,
        }
    }
}

impl Default for P2PConfigBuilder {
    /// The default settings, under a freshly generated identity.
    fn default() -> (builder: Self)
        ensures
            builder@ == default_settings(builder@.private_key, builder@.peer_id),
            is_ed25519(builder@.private_key),
            peer_bytes(builder@.peer_id) == key_peer(builder@.private_key),
    {
        let (key, peer_id) = generate_identity();
        Self {
            host: String::from_str("0.0.0.0"),
            port: 8500,
            private_key: key,
            peer_id,
            peers: Vec::new(),
        }
    }
}

impl P2PConfigBuilder {
    /// Sets the host to listen on.
    pub fn set_host(self, host: String) -> (builder: Self)
        ensures
            builder@ == (Settings { host: host@, ..self@ }),
    {
        let mut builder = self;
        builder.host = host;
        builder
    }

    /// Sets the port to listen on.
    pub fn set_port(self, port: u16) -> (builder: Self)
        ensures
            builder@ == (Settings { port, ..self@ }),
    {
        let mut builder = self;
        builder.port = port;
        builder
    }

    /// Sets the private key of the node.
    pub fn set_private_key(self, private_key: Keypair) -> (builder: Self)
        ensures
            builder@ == (Settings { private_key, ..self@ }),
    {
        let mut builder = self;
        builder.private_key = private_key;
        builder
    }

    /// Sets the peer identifier of the node.
    pub fn set_peer_id(self, peer_id: PeerId) -> (builder: Self)
        ensures
            builder@ == (Settings { peer_id, ..self@ }),
    {
        let mut builder = self;
        builder.peer_id = peer_id;
        builder
    }

    /// Sets the peers to reach out to at start.
    pub fn set_peers(self, peers: Vec<Multiaddr>) -> (builder: Self)
        ensures
            builder@ == (Settings { peers: peers@, ..self@ }),
    {
        let mut builder = self;
        builder.peers = peers;
        builder
    }

    /// The configuration with the settings collected so far.
    pub fn build(self) -> (config: P2PConfig)
        ensures
            config@ == self@,
    {
        P2PConfig::from_builder(self)
    }
}

/// The settings of a peer-to-peer server.
pub struct P2PConfig {
    host: String,
    port: u16,
    private_key: Keypair,
    peer_id: PeerId,
    peers: Vec<Multiaddr>,
}

impl View for P2PConfig {
    type V = Settings;

    closed spec fn view(&self) -> Settings {
        Settings {
            host: self.host@,
            port: self.port,
            private_key: self.private_key,
            peer_id: self.peer_id,
            peers: self.peers@,
        }
    }
}

impl Default for P2PConfig {
    /// The default settings, under a freshly generated identity.
    fn default() -> (config: Self)
        ensures
            config@ == default_settings(config@.private_key, config@.peer_id),
            is_ed25519(config@.private_key),
            peer_bytes(config@.peer_id) == key_peer(config@.private_key),
    {
        let (key, peer_id) = generate_identity();
        Self {
            host: String::from_str("0.0.0.0"),
            port: 8500,
            private_key: key,
            peer_id,
            peers: Vec::new(),
        }
    }
}

impl Clone for P2PConfig {
    fn clone(&self) -> (copy: Self)
        ensures
            copy@ == self@,
    {
        Self {
            host: self.host.clone(),
            port: self.port,
            private_key: clone_keypair(&self.private_key),
            peer_id: self.peer_id,
            peers: clone_addresses(&self.peers),
        }
    }
}

impl P2PConfig {
    /// The configuration that holds what the builder collected.
    pub fn from_builder(builder: P2PConfigBuilder) -> (config: Self)
        ensures
            config@ == builder@,
    {
        let P2PConfigBuilder { host, port, private_key, peer_id, peers } = builder;
        Self { host, port, private_key, peer_id, peers }
    }

    /// Adds a peer to reach out to at start, after those already listed.
    pub fn add_peer(&mut self, peer: Multiaddr)
        ensures
            final(self)@ == (Settings { peers: old(self)@.peers.push(peer), ..old(self)@ }),
    {
        self.peers.push(peer);
    }

    /// The host to listen on.
    pub fn host(&self) -> (host: &String)
        ensures
            host@ == self@.host,
    {
        &self.host
    }

    /// The port to listen on.
    pub fn port(&self) -> (port: u16)
        ensures
            port == self@.port,
    {
        self.port
    }

    /// The private key of the node.
    pub fn private_key(&self) -> (key: &Keypair)
        ensures
            *key == self@.private_key,
    {
        &self.private_key
    }

    /// The peer identifier of the node.
    pub fn peer_id(&self) -> (peer_id: PeerId)
        ensures
            peer_id == self@.peer_id,
    {
        self.peer_id
    }

    /// The peers to reach out to at start, in order.
    pub fn peers(&self) -> (peers: &Vec<Multiaddr>)
        ensures
            peers@ == self@.peers,
    {
        &self.peers
    }

    /// Takes the configuration apart.
    pub(crate) fn into_parts(self) -> (parts: (String, u16, Keypair, PeerId, Vec<Multiaddr>))
        ensures
            parts.0@ == self@.host,
            parts.1 == self@.port,
            parts.2 == self@.private_key,
            parts.3 == self@.peer_id,
            parts.4@ == self@.peers,
    {
        let P2PConfig { host, port, private_key, peer_id, peers } = self;
        (host, port, private_key, peer_id, peers)
    }
}

} // verus!
