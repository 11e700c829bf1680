//! The peer-to-peer server: its settings, its event loop, and the server
//! that owns the sending end of the outbound channel.

pub mod bringup;
pub mod config;
pub mod error;
pub mod event_loop;
pub mod topics;

use crate::address::listen_outcome;
use crate::address::multiaddr_bytes;
use crate::address::ConfigError;
use crate::address::TransportType;
use crate::channel::clone_sender;
use crate::channel::close_channel;
use crate::channel::open_channel;
use crate::channel::ClientMessage;
use crate::identity::is_ed25519;
use crate::identity::peer_bytes;
use crate::node::error::StartError;
use crate::p2p::bringup::BringupScript;
use crate::p2p::bringup::Stage;
use crate::p2p::config::clone_addresses;
use crate::p2p::config::P2PConfig;
use crate::p2p::config::Settings;
use crate::p2p::error::P2PError;
use crate::p2p::event_loop::communication_role;
use crate::p2p::event_loop::EventLoop;
use crate::pubsub::clone_topic;
use crate::pubsub::floodsub_behaviour;
use crate::pubsub::generate_floodsub_topic;
use crate::pubsub::fresh_state;
use crate::pubsub::state_of;
use crate::pubsub::topic_id;
use crate::pubsub::FloodsubState;
use crate::transport::config_transport;
use crate::transport::transport_for;
use crate::transport::BoxedTransport;
use futures::channel::mpsc::Receiver;
use futures::channel::mpsc::Sender;
use libp2p::floodsub::Floodsub;
use libp2p::identity::Keypair;
use libp2p::Multiaddr;
use libp2p::PeerId;
use vstd::prelude::*;

verus! {

/// The name of the topic that outbound messages are published on.
pub open spec fn communication_topic() -> Seq<char> {
    "P2PNodeCommunicationTopic"@
}

/// Everything that bringing the network stack up takes: the parts built
/// here, and what is left to do with them.
pub struct Bringup {
    /// The identifier of the local peer.
    pub local_peer_id: PeerId,
    /// The transport to run the stack over.
    pub transport: BoxedTransport,
    /// The publish/subscribe half of the behaviour, subscribed to the
    /// communication topic.
    pub floodsub: Floodsub,
    /// The state of the event loop.
    pub event_loop: EventLoop,
    /// The steps that bring the stack up: where to listen, and which peers
    /// to dial.
    pub script: BringupScript,
    /// The receiving end of the outbound channel, for the event loop.
    pub receiver: Receiver<ClientMessage>,
    /// A sending end of the outbound channel, for the local input source.
    pub input: Sender<ClientMessage>,
}

/// The peer-to-peer server: the settings of the network stack, whether it
/// runs, and, while it runs, the sending end of the outbound channel.
pub struct P2PServer {
    host: String,
    port: u16,
    private_key: Keypair,
    peer_id: PeerId,
    peers: Vec<Multiaddr>,
    running: bool,
    message_sender: Option<Sender<ClientMessage>>,
}

/// The error that a start of the server is refused with before anything is
/// built, if it is: a running server refuses, and so does a host that makes
/// no well-formed listen address.
pub open spec fn start_refusal(running: bool, settings: Settings) -> Option<StartError> {
    if running {
        Some(StartError::Server(P2PError::ServerRunning))
    } else {
        match listen_outcome(settings.host, settings.port, TransportType::Tcp) {
            Ok(_) => None,
            Err(e) => Some(StartError::Config(e)),
        }
    }
}

/// Whether `plan` is the bring-up that the settings call for.
pub open spec fn bringup_for(plan: Bringup, settings: Settings) -> bool {
    &&& listen_outcome(settings.host, settings.port, TransportType::Tcp) == Ok::<
        Seq<u8>,
        ConfigError,
    >(multiaddr_bytes(plan.script.listen()))
    &&& plan.script.peers() == settings.peers
    &&& plan.script.stage() == Stage::Fresh
    &&& plan.script.wf()
    &&& plan.local_peer_id == settings.peer_id
    &&& transport_for(plan.transport, settings.private_key, TransportType::Tcp)
    &&& state_of(plan.floodsub) == (FloodsubState {
        subscriptions: seq![communication_topic()],
        ..fresh_state(peer_bytes(settings.peer_id))
    })
    &&& plan.event_loop.wf()
    &&& plan.event_loop.topics().dom() == set![communication_role()]
    &&& topic_id(plan.event_loop.topics()[communication_role()]) == communication_topic()
}

impl P2PServer {
    /// The settings of the server.
    pub closed spec fn settings(&self) -> Settings {
        Settings {
            host: self.host@,
            port: self.port,
            private_key: self.private_key,
            peer_id: self.peer_id,
            peers: self.peers@,
        }
    }

    /// Whether the server runs.
    pub closed spec fn running(&self) -> bool {
        self.running
    }

    /// Whether the server holds a sending end of the outbound channel.
    pub closed spec fn has_sender(&self) -> bool {
        self.message_sender is Some
    }

    /// The server holds a sender exactly while it runs.
    pub open spec fn wf(&self) -> bool {
        self.running() == self.has_sender()
    }

    /// A server with the given settings, not running.
    pub fn new(config: P2PConfig) -> (r: Result<Self, P2PError>)
        ensures
            r is Ok,
            r->Ok_0.settings() == config@,
            !r->Ok_0.running(),
            r->Ok_0.wf(),
    {
        let (host, port, private_key, peer_id, peers) = config.into_parts();
        Ok(Self { host, port, private_key, peer_id, peers, running: false, message_sender: None })
    }

    /// Whether the server runs.
    pub fn is_running(&self) -> (running: bool)
        ensures
            running == self.running(),
    {
        self.running
    }

    /// Starts the server: builds what the network stack is made of, opens
    /// the outbound channel, keeps its sending end and marks the server as
    /// running.
    ///
    /// A running server refuses with `ServerRunning`, a malformed listen
    /// address with `Config`; otherwise the only failure is that of building
    /// the transport, which an Ed25519 identity rules out. A start that
    /// fails leaves the server as it was.
    pub fn start(&mut self) -> (r: Result<Bringup, StartError>)
        requires
            old(self).wf(),
        ensures
            final(self).wf(),
            final(self).settings() == old(self).settings(),
            start_refusal(old(self).running(), old(self).settings()) is None && is_ed25519(
                old(self).settings().private_key,
            ) ==> r is Ok,
            match r {
                Ok(plan) => {
                    &&& start_refusal(old(self).running(), old(self).settings()) is None
                    &&& final(self).running()
                    &&& bringup_for(plan, old(self).settings())
                },
                Err(e) => {
                    &&& *final(self) == *old(self)
                    &&& e == match start_refusal(old(self).running(), old(self).settings()) {
                        Some(refusal) => refusal,
                        None => StartError::Transport,
                    }
                },
            },
    {
        if self.running {
            return Err(StartError::Server(P2PError::ServerRunning));
        }
        let topic = generate_floodsub_topic("P2PNodeCommunicationTopic");
        let event_loop = EventLoop::new(clone_topic(&topic));
        let listen = match event_loop.start_listen(self.host.as_str(), self.port) {
            Ok(address) => address,
            Err(e) => {
                return Err(StartError::Config(e));
            },
        };
        let transport = match config_transport(&self.private_key) {
            Ok(transport) => transport,
            Err(_) => {
                return Err(StartError::Transport);
            },
        };
        let floodsub = floodsub_behaviour(self.peer_id, topic);
        let (message_sender, receiver) = open_channel(0);
        let input = clone_sender(&message_sender);
        self.message_sender = Some(message_sender);
        self.running = true;
        let plan = Bringup {
            local_peer_id: self.peer_id,
            transport,
            floodsub,
            event_loop,
            script: BringupScript::new(listen, clone_addresses(&self.peers)),
            receiver,
            input,
        };
        assert(plan.event_loop.topics().dom() =~= set![communication_role()]);
        Ok(plan)
    }

    /// Stops the server: closes the outbound channel, which ends the event
    /// loop, lets go of the sender and marks the server as not running.
    /// Returns whether the server was running.
    pub fn stop(&mut self) -> (was_running: bool)
        requires
            old(self).wf(),
        ensures
            final(self).wf(),
            !final(self).running(),
            final(self).settings() == old(self).settings(),
            was_running == old(self).running(),
    {
        let was_running = self.running;
        let sender = self.message_sender.take();
        match sender {
            Some(mut sender) => {
                close_channel(&mut sender);
            },
            None => {},
        }
        self.running = false;
        was_running
    }
}

} // verus!
