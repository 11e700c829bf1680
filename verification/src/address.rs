//! Textual endpoint addresses: `/ip4/<host>/tcp/<port>`, with `/ws` appended
//! for the text-subprotocol carrier.

use libp2p::multiaddr::Error;
use libp2p::Multiaddr;
use vstd::prelude::*;
use vstd::string::StringExecFns;

verus! {

/// Which carrier a transport is built over.
#[derive(Clone, Copy, Debug, PartialEq, Eq, Structural)]
pub enum TransportType {
    /// A raw stream socket.
    Tcp,
    /// The text-subprotocol carrier, layered over a stream socket.
    Ws,
}

/// Why an endpoint address could not be produced.
#[derive(Clone, Copy, Debug, PartialEq, Eq, Structural)]
pub enum ConfigError {
    /// The text is not a well-formed multi-segment address.
    MalformedAddress,
    /// The text-subprotocol listener sits one port above the direct one, and
    /// there is no port above 65535.
    PortOutOfRange,
}

/// The character that writes the digit `d`.
pub open spec fn digit_char(d: nat) -> char
    recommends
        d < 10,
{
    if d == 0 {
        '0'
    } else if d == 1 {
        '1'
    } else if d == 2 {
        '2'
    } else if d == 3 {
        '3'
    } else if d == 4 {
        '4'
    } else if d == 5 {
        '5'
    } else if d == 6 {
        '6'
    } else if d == 7 {
        '7'
    } else if d == 8 {
        '8'
    } else {
        '9'
    }
}

/// `n` written in decimal, without leading zeros.
pub open spec fn decimal(n: nat) -> Seq<char>
    decreases n,
{
    if n < 10 {
        seq![digit_char(n)]
    } else {
        decimal(n / 10).push(digit_char(n % 10))
    }
}

/// The port a listener of the given carrier binds, when the node is
/// configured with `port`: the text-subprotocol listener is offset by one so
/// that both carriers can run in one process.
pub open spec fn carrier_port(port: u16, transport: TransportType) -> int {
    match transport {
        TransportType::Tcp => port as int,
        TransportType::Ws => port + 1,
    }
}

/// The text of the address `/ip4/<host>/tcp/<port>`.
pub open spec fn tcp_address(host: Seq<char>, port: nat) -> Seq<char> {
    "/ip4/"@ + host + "/tcp/"@ + decimal(port)
}

/// The text of the address a listener of the given carrier binds.
pub open spec fn listen_address(host: Seq<char>, port: u16, transport: TransportType) -> Seq<char> {
    match transport {
        TransportType::Tcp => tcp_address(host, port as nat),
        TransportType::Ws => tcp_address(host, (port + 1) as nat) + "/ws"@,
    }
}

/// The text of a control-plane bind address, `<host>:<port>`.
pub open spec fn socket_address(host: Seq<char>, port: u16) -> Seq<char> {
    host + ":"@ + decimal(port as nat)
}

fn digit_text(d: u32) -> (text: &'static str)
    requires
        d < 10,
    ensures
        text@ == seq![digit_char(d as nat)],
{
    proof {
        reveal_strlit("0");
        reveal_strlit("1");
        reveal_strlit("2");
        reveal_strlit("3");
        reveal_strlit("4");
        reveal_strlit("5");
        reveal_strlit("6");
        reveal_strlit("7");
        reveal_strlit("8");
        reveal_strlit("9");
    }
    let text = if d == 0 {
        "0"
    } else if d == 1 {
        "1"
    } else if d == 2 {
        "2"
    } else if d == 3 {
        "3"
    } else if d == 4 {
        "4"
    } else if d == 5 {
        "5"
    } else if d == 6 {
        "6"
    } else if d == 7 {
        "7"
    } else if d == 8 {
        "8"
    } else {
        "9"
    };
    assert(text@ =~= seq![digit_char(d as nat)]);
    text
}

/// Writes `n` in decimal.
pub fn decimal_text(n: u32) -> (text: String)
    ensures
        text@ == decimal(n as nat),
    decreases n,
{
    if n < 10 {
        String::from_str(digit_text(n))
    } else {
        let mut text = decimal_text(n / 10);
        text.append(digit_text(n % 10));
        assert(text@ =~= decimal(n as nat));
        text
    }
}

/// Writes the address `/ip4/<host>/tcp/<port>`.
pub fn tcp_address_text(host: &str, port: u32) -> (text: String)
    ensures
        text@ == tcp_address(host@, port as nat),
{
    let mut text = String::from_str("/ip4/");
    text.append(host);
    text.append("/tcp/");
    let digits = decimal_text(port);
    text.append(digits.as_str());
    text
}

/// Writes the address that a listener of the given carrier binds on `host`,
/// for a node configured with `port`.
///
/// Fails with `PortOutOfRange` exactly when the carrier is the
/// text-subprotocol one and `port` is 65535.
pub fn listen_address_text(host: &str, port: u16, transport: TransportType) -> (r: Result<
    String,
    ConfigError,
>)
    ensures
        match r {
            Ok(text) => carrier_port(port, transport) <= u16::MAX && text@ == listen_address(
                host@,
                port,
                transport,
            ),
            Err(e) => carrier_port(port, transport) > u16::MAX && e == ConfigError::PortOutOfRange,
        },
{
    match transport {
        TransportType::Tcp => Ok(tcp_address_text(host, port as u32)),
        TransportType::Ws => {
            if port == u16::MAX {
                Err(ConfigError::PortOutOfRange)
            } else {
                let mut text = tcp_address_text(host, port as u32 + 1);
                text.append("/ws");
                Ok(text)
            }
        },
    }
}

/// Writes the control-plane bind address `<host>:<port>`.
pub fn socket_address_text(host: &str, port: u16) -> (text: String)
    ensures
        text@ == socket_address(host@, port),
{
    let mut text = String::from_str(host);
    text.append(":");
    let digits = decimal_text(port as u32);
    text.append(digits.as_str());
    text
}

/// A libp2p multi-segment address, seen through its binary encoding.
#[verifier::external_type_specification]
#[verifier::external_body]
pub struct ExMultiaddr(Multiaddr);

/// The error of the multiaddr parser. Only its presence is looked at.
#[verifier::external_type_specification]
#[verifier::external_body]
pub struct ExMultiaddrError(Error);

/// The binary encoding of an address: what `Multiaddr::to_vec` gives.
pub uninterp spec fn multiaddr_bytes(address: Multiaddr) -> Seq<u8>;

/// What the multiaddr parser makes of a text: the encoding of the address it
/// reads, or `None` where it rejects the text.
pub uninterp spec fn parsed_multiaddr(text: Seq<char>) -> Option<Seq<u8>>;

/// `Multiaddr::from_str`, reached as `str::parse`. The parser accepts or
/// rejects by the text alone; the claim is that the outcome is the one named
/// `parsed_multiaddr`.
#[verifier::external_body]
fn parse_multiaddr(text: &str) -> (r: Result<Multiaddr, Error>)
    ensures
        match r {
            Ok(address) => parsed_multiaddr(text@) == Some(multiaddr_bytes(address)),
            Err(_) => parsed_multiaddr(text@) is None,
        },
{
    text.parse::<Multiaddr>()
}

/// `Multiaddr::clone`: a copy of the address, equal to the one copied.
#[verifier::external_body]
pub(crate) fn clone_multiaddr(address: &Multiaddr) -> (copy: Multiaddr)
    ensures
        copy == *address,
{
    address.clone()
}

/// How a parse ends, given what the parser made of the text.
pub open spec fn address_outcome(parsed: Option<Seq<u8>>) -> Result<Seq<u8>, ConfigError> {
    match parsed {
        Some(bytes) => Ok(bytes),
        None => Err(ConfigError::MalformedAddress),
    }
}

/// Turns the parser's verdict into the library's: the address, or
/// `MalformedAddress`.
pub fn address_from_parse(parsed: Result<Multiaddr, Error>) -> (r: Result<Multiaddr, ConfigError>)
    ensures
        match (r, parsed) {
            (Ok(address), Ok(given)) => address == given,
            (Err(e), Err(_)) => e == ConfigError::MalformedAddress,
            _ => false,
        },
{
    match parsed {
        Ok(address) => Ok(address),
        Err(_) => Err(ConfigError::MalformedAddress),
    }
}

/// Reads a textual address.
///
/// Succeeds exactly on the texts the multiaddr parser accepts, and fails with
/// `MalformedAddress` on all others.
pub fn parse_address(text: &str) -> (r: Result<Multiaddr, ConfigError>)
    ensures
        match r {
            Ok(address) => address_outcome(parsed_multiaddr(text@)) == Ok::<
                Seq<u8>,
                ConfigError,
            >(multiaddr_bytes(address)),
            Err(e) => address_outcome(parsed_multiaddr(text@)) == Err::<Seq<u8>, ConfigError>(e),
        },
{
    address_from_parse(parse_multiaddr(text))
}

/// What `listen_multiaddr` returns, over the encoding of the address.
pub open spec fn listen_outcome(host: Seq<char>, port: u16, transport: TransportType) -> Result<
    Seq<u8>,
    ConfigError,
> {
    if carrier_port(port, transport) > u16::MAX {
        Err(ConfigError::PortOutOfRange)
    } else {
        address_outcome(parsed_multiaddr(listen_address(host, port, transport)))
    }
}

/// The address a listener of the given carrier binds on `host`, for a node
/// configured with `port`.
///
/// Fails with `PortOutOfRange` where the carrier's port would pass 65535, and
/// with `MalformedAddress` where `host` does not make a well-formed address.
pub fn listen_multiaddr(host: &str, port: u16, transport: TransportType) -> (r: Result<
    Multiaddr,
    ConfigError,
>)
    ensures
        match r {
            Ok(address) => listen_outcome(host@, port, transport) == Ok::<Seq<u8>, ConfigError>(
                multiaddr_bytes(address),
            ),
            Err(e) => listen_outcome(host@, port, transport) == Err::<Seq<u8>, ConfigError>(e),
        },
{
    match listen_address_text(host, port, transport) {
        Ok(text) => parse_address(text.as_str()),
        Err(e) => Err(e),
    }
}

} // verus!
