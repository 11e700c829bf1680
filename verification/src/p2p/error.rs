//! Errors of the peer-to-peer server.

use vstd::prelude::*;
use vstd::string::StringExecFns;

verus! {

/// Why the peer-to-peer server refused a request.
#[derive(Clone, Copy, Debug, PartialEq, Eq, Structural)]
pub enum P2PError {
    /// The server was asked to start while it is running.
    ServerRunning,
}

impl P2PError {
    /// The text that describes the error.
    pub open spec fn spec_message(self) -> Seq<char> {
        match self {
            P2PError::ServerRunning => "server already running"@,
        }
    }

    /// The text that describes the error.
    pub fn message(&self) -> (text: String)
        ensures
            text@ == self.spec_message(),
    {
        match self {
            P2PError::ServerRunning => String::from_str("server already running"),
        }
    }
}

} // verus!
