//! What a network stack is told once it is built: whom to dial, and where
//! to listen.

use crate::address::listen_multiaddr;
use crate::address::listen_outcome;
use crate::address::multiaddr_bytes;
use crate::address::ConfigError;
use crate::address::TransportType;
use libp2p::Multiaddr;
use vstd::prelude::*;
use vstd::string::StringExecFns;

verus! {

/// The host that stands for every interface.
pub open spec fn any_interface() -> Seq<char> {
    "0.0.0.0"@
}

/// The first steps of a network stack.
pub struct SwarmPlan {
    /// The peer to dial before listening, if any.
    pub dial: Option<Multiaddr>,
    /// The address to listen on.
    pub listen: Multiaddr,
}

/// Plans the first steps of a network stack over the given carrier: it
/// dials `dial`, if given, and listens on every interface, on the port that
/// the carrier is assigned for `listen_on`.
///
/// Fails, as the listen address does, with `PortOutOfRange` where the
/// carrier's port would pass 65535.
pub fn swarm_config(dial: Option<Multiaddr>, listen_on: u16, transport_type: TransportType) -> (r:
    Result<SwarmPlan, ConfigError>)
    ensures
        match r {
            Ok(plan) => {
                &&& plan.dial == dial
                &&& listen_outcome(any_interface(), listen_on, transport_type) == Ok::<
                    Seq<u8>,
                    ConfigError,
                >(multiaddr_bytes(plan.listen))
            },
            Err(e) => listen_outcome(any_interface(), listen_on, transport_type) == Err::<
                Seq<u8>,
                ConfigError,
            >(e),
        },
{
    let host = String::from_str("0.0.0.0");
    match listen_multiaddr(host.as_str(), listen_on, transport_type) {
        Ok(listen) => Ok(SwarmPlan { dial, listen }),
        Err(e) => Err(e),
    }
}

} // verus!
