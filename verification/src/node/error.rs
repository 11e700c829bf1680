//! Errors of the node lifecycle.

use crate::address::ConfigError;
use crate::p2p::error::P2PError;
use vstd::prelude::*;
use vstd::string::StringExecFns;

verus! {

/// Why the node refused a lifecycle request.
#[derive(Clone, Copy, Debug, PartialEq, Eq, Structural)]
pub enum NodeError {
    /// The node was asked to start after it was stopped.
    NodeStopped,
    /// The node was asked to start while it is running.
    NodeRunning,
}

impl NodeError {
    /// The text that describes the error.
    pub open spec fn spec_message(self) -> Seq<char> {
        match self {
            NodeError::NodeStopped => "node stopped"@,
            NodeError::NodeRunning => "node already running"@,
        }
    }

    /// The text that describes the error.
    pub fn message(&self) -> (text: String)
        ensures
            text@ == self.spec_message(),
    {
        match self {
            NodeError::NodeStopped => String::from_str("node stopped"),
            NodeError::NodeRunning => String::from_str("node already running"),
        }
    }
}

/// Why a start did not go through.
#[derive(Clone, Copy, Debug, PartialEq, Eq, Structural)]
pub enum StartError {
    /// The node is not in a state from which it can start.
    Lifecycle(NodeError),
    /// The peer-to-peer server refused.
    Server(P2PError),
    /// The listen address is not well-formed.
    Config(ConfigError),
    /// The transport could not be built, or the listener could not be bound.
    Transport,
    /// The control-plane service could not be brought up. The peer-to-peer
    /// layer is up; the node runs without its control plane.
    ControlPlane,
    /// A step of the start was reported that the node is not waiting for.
    NotStarting,
}

} // verus!
