//! The event loop, one event at a time.
//!
//! The loop itself waits on two sources, the network stack and the outbound
//! channel, and so runs outside this library. What it does with each event
//! is decided here.

use crate::address::listen_multiaddr;
use crate::address::listen_outcome;
use crate::address::multiaddr_bytes;
use crate::address::ConfigError;
use crate::address::TransportType;
use crate::channel::ClientMessage;
use crate::p2p::topics::Topics;
use crate::pubsub::pending_after_publish;
use crate::pubsub::publish;
use crate::pubsub::state_of;
use crate::pubsub::topic_id;
use crate::pubsub::FloodsubState;
use libp2p::floodsub::Floodsub;
use libp2p::floodsub::Topic;
use libp2p::Multiaddr;
use vstd::prelude::*;
use vstd::string::StrSliceExecFns;
use vstd::string::StringExecFns;
use vstd::utf8::encode_utf8;

verus! {

/// The role under which the topic of outbound messages is registered.
pub open spec fn communication_role() -> Seq<char> {
    "Communication"@
}

/// An event of the network stack, reduced to what the loop reads.
pub enum SwarmNotice {
    /// A listener was bound to this address.
    NewListenAddr(Multiaddr),
    /// Anything else. Events of the two behaviours are handled where they
    /// arise and do not pass through here.
    Other,
}

/// What the loop woke up for.
pub enum LoopEvent {
    /// The network stack reported something.
    Swarm(SwarmNotice),
    /// The outbound channel yielded: a message, or `None` once every sender
    /// is gone or the channel was closed.
    Message(Option<ClientMessage>),
}

/// What the loop did with an event, and whether it goes on.
pub enum LoopStep {
    /// A listener is up on this address. The loop goes on.
    Listening(Multiaddr),
    /// Nothing to do. The loop goes on.
    Idle,
    /// A message was handed to the publish/subscribe layer. The loop goes on.
    Published,
    /// The outbound channel is closed. The loop ends.
    Exit,
}

/// What is handed to the publish/subscribe layer for one outbound message.
pub struct Publication {
    pub topic: Topic,
    pub data: Vec<u8>,
}

/// The state of the event loop that does not live in the network stack: the
/// topics that the node publishes on.
pub struct EventLoop {
    topics: Topics,
}

impl EventLoop {
    /// The topics of the loop, by role.
    pub closed spec fn topics(&self) -> Map<Seq<char>, Topic> {
        self.topics@
    }

    /// The registry is sound and holds a topic for outbound messages.
    pub closed spec fn wf(&self) -> bool {
        &&& self.topics.wf()
        &&& self.topics@.contains_key(communication_role())
    }

    /// A loop that publishes outbound messages on `topic`.
    pub fn new(topic: Topic) -> (event_loop: Self)
        ensures
            event_loop.wf(),
            event_loop.topics() == Map::<Seq<char>, Topic>::empty().insert(
                communication_role(),
                topic,
            ),
    {
        let mut topics = Topics::new();
        topics.insert(String::from_str("Communication"), topic);
        EventLoop { topics }
    }

    /// What publishing `message` hands to the publish/subscribe layer: the
    /// topic registered for outbound messages, and the bytes of the text.
    pub fn publication(&self, message: &str) -> (publication: Publication)
        requires
            self.wf(),
        ensures
            publication.topic == self.topics()[communication_role()],
            publication.data@ == encode_utf8(message@),
    {
        let role = String::from_str("Communication");
        let topic = self.topics.get(&role);
        Publication { topic: topic.unwrap(), data: message.as_bytes_vec() }
    }

    /// The state of the publish/subscribe layer after `message` was
    /// published by this loop.
    pub open spec fn published(&self, state: FloodsubState, message: Seq<char>) -> FloodsubState {
        FloodsubState {
            pending: pending_after_publish(
                state,
                topic_id(self.topics()[communication_role()]),
                encode_utf8(message),
            ),
            ..state
        }
    }

    /// Publishes an outbound message on the topic registered for them: the
    /// bytes of the text are queued for every connected peer that is
    /// subscribed to the topic.
    pub fn handle_incoming_message(&self, floodsub: &mut Floodsub, message: ClientMessage)
        requires
            self.wf(),
        ensures
            state_of(*final(floodsub)) == self.published(state_of(*old(floodsub)), message@),
    {
        let publication = self.publication(message.as_str());
        publish(floodsub, publication.topic, publication.data);
    }

    /// Handles one event of the loop.
    ///
    /// A bound listener is reported. A message from the channel is published.
    /// The loop ends on exactly one event: the channel yielding `None`.
    pub fn step(&self, floodsub: &mut Floodsub, event: LoopEvent) -> (step: LoopStep)
        requires
            self.wf(),
        ensures
            match event {
                LoopEvent::Swarm(SwarmNotice::NewListenAddr(address)) => step
                    == LoopStep::Listening(address),
                LoopEvent::Swarm(SwarmNotice::Other) => step == LoopStep::Idle,
                LoopEvent::Message(Some(_)) => step == LoopStep::Published,
                LoopEvent::Message(None) => step == LoopStep::Exit,
            },
            state_of(*final(floodsub)) == match event {
                LoopEvent::Message(Some(message)) => self.published(
                    state_of(*old(floodsub)),
                    message@,
                ),
                _ => state_of(*old(floodsub)),
            },
    {
        match event {
            LoopEvent::Swarm(SwarmNotice::NewListenAddr(address)) => LoopStep::Listening(address),
            LoopEvent::Swarm(SwarmNotice::Other) => LoopStep::Idle,
            LoopEvent::Message(Some(message)) => {
                self.handle_incoming_message(floodsub, message);
                LoopStep::Published
            },
            LoopEvent::Message(None) => LoopStep::Exit,
        }
    }

    /// The address on which the loop's network stack is to listen: the
    /// direct-carrier address of `host` and `port`.
    pub fn start_listen(&self, host: &str, port: u16) -> (r: Result<Multiaddr, ConfigError>)
        ensures
            match r {
                Ok(address) => listen_outcome(host@, port, TransportType::Tcp) == Ok::<
                    Seq<u8>,
                    ConfigError,
                >(multiaddr_bytes(address)),
                Err(e) => listen_outcome(host@, port, TransportType::Tcp) == Err::<
                    Seq<u8>,
                    ConfigError,
                >(e),
            },
    {
        listen_multiaddr(host, port, TransportType::Tcp)
    }
}

} // verus!
