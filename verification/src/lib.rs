//! The decision core of a peer-to-peer node: how endpoint addresses are
//! written, how the publish/subscribe layer follows peer discovery, what the
//! event loop does with each event, and how the node and its two services
//! move through their lifecycle.
//!
//! Nothing here waits, reads a socket or spawns a task. Functions that need
//! such work done hand back a plan; the program around the library carries it
//! out and reports how it went.

pub mod address;
pub mod arguments;
pub mod behaviour;
pub mod channel;
pub mod identity;
pub mod node;
pub mod p2p;
pub mod pubsub;
pub mod swarm;
pub mod transport;
