use libp2p::multiaddr::Protocol;
use libp2p::Multiaddr;
use p2p_node::address::address_from_parse;
use p2p_node::address::decimal_text;
use p2p_node::address::listen_address_text;
use p2p_node::address::listen_multiaddr;
use p2p_node::address::parse_address;
use p2p_node::address::socket_address_text;
use p2p_node::address::tcp_address_text;
use p2p_node::address::ConfigError;
use p2p_node::address::TransportType;

#[test]
fn decimal_of_single_digits() {
    assert_eq!(decimal_text(0), "0");
    assert_eq!(decimal_text(7), "7");
    assert_eq!(decimal_text(9), "9");
}

#[test]
fn decimal_of_several_digits() {
    assert_eq!(decimal_text(10), "10");
    assert_eq!(decimal_text(8500), "8500");
    assert_eq!(decimal_text(65535), "65535");
    assert_eq!(decimal_text(65536), "65536");
    assert_eq!(decimal_text(1000000007), "1000000007");
    assert_eq!(decimal_text(u32::MAX), "4294967295");
}

#[test]
fn decimal_agrees_with_std() {
    let mut n: u32 = 1;
    for _ in 0..31 {
        assert_eq!(decimal_text(n), n.to_string());
        assert_eq!(decimal_text(n - 1), (n - 1).to_string());
        n *= 2;
    }
}

#[test]
fn tcp_address_is_written_segment_by_segment() {
    assert_eq!(tcp_address_text("127.0.0.1", 8500), "/ip4/127.0.0.1/tcp/8500");
    assert_eq!(tcp_address_text("0.0.0.0", 0), "/ip4/0.0.0.0/tcp/0");
    assert_eq!(tcp_address_text("", 1), "/ip4//tcp/1");
}

#[test]
fn direct_listener_uses_the_port_given() {
    assert_eq!(
        listen_address_text("0.0.0.0", 3000, TransportType::Tcp),
        Ok("/ip4/0.0.0.0/tcp/3000".to_string())
    );
    assert_eq!(
        listen_address_text("0.0.0.0", 65535, TransportType::Tcp),
        Ok("/ip4/0.0.0.0/tcp/65535".to_string())
    );
}

#[test]
fn text_subprotocol_listener_is_offset_by_one() {
    assert_eq!(
        listen_address_text("0.0.0.0", 3000, TransportType::Ws),
        Ok("/ip4/0.0.0.0/tcp/3001/ws".to_string())
    );
    assert_eq!(
        listen_address_text("10.1.2.3", 65534, TransportType::Ws),
        Ok("/ip4/10.1.2.3/tcp/65535/ws".to_string())
    );
}

#[test]
fn the_two_carriers_never_share_an_address() {
    for port in [0u16, 1, 3000, 8500, 65534] {
        let direct = listen_address_text("0.0.0.0", port, TransportType::Tcp).unwrap();
        let framed = listen_address_text("0.0.0.0", port, TransportType::Ws).unwrap();
        assert_ne!(direct, framed);
        assert!(!framed.starts_with(&format!("{}/", direct)));
    }
}

#[test]
fn text_subprotocol_listener_has_no_port_above_the_last() {
    assert_eq!(
        listen_address_text("0.0.0.0", 65535, TransportType::Ws),
        Err(ConfigError::PortOutOfRange)
    );
    assert_eq!(
        listen_multiaddr("0.0.0.0", 65535, TransportType::Ws),
        Err(ConfigError::PortOutOfRange)
    );
}

#[test]
fn socket_address_joins_host_and_port() {
    assert_eq!(socket_address_text("127.0.0.1", 8585), "127.0.0.1:8585");
    assert_eq!(socket_address_text("localhost", 0), "localhost:0");
    assert_eq!(socket_address_text("", 65535), ":65535");
}

#[test]
fn parse_address_reads_what_the_parser_reads() {
    let text = "/ip4/127.0.0.1/tcp/3001/ws";
    let address = parse_address(text).unwrap();
    let expected: Multiaddr = text.parse().unwrap();
    assert_eq!(address, expected);
    assert_eq!(address.to_string(), text);
    let parts: Vec<Protocol> = address.iter().collect();
    assert_eq!(
        parts,
        vec![Protocol::Ip4("127.0.0.1".parse().unwrap()), Protocol::Tcp(3001), Protocol::Ws("/".into())]
    );
}

#[test]
fn parse_address_rejects_malformed_text() {
    assert_eq!(parse_address("not an address"), Err(ConfigError::MalformedAddress));
    assert_eq!(parse_address("ip4/127.0.0.1/tcp/1"), Err(ConfigError::MalformedAddress));
    assert_eq!(parse_address("/ip4/999.0.0.1/tcp/1"), Err(ConfigError::MalformedAddress));
    assert_eq!(parse_address("/ip4/127.0.0.1/tcp/70000"), Err(ConfigError::MalformedAddress));
    assert_eq!(parse_address("/ip4/127.0.0.1/tcp"), Err(ConfigError::MalformedAddress));
    assert_eq!(parse_address("/nowhere/1"), Err(ConfigError::MalformedAddress));
}

#[test]
fn parse_address_on_the_shortest_texts() {
    assert_eq!(parse_address(""), Ok(Multiaddr::empty()));
    assert_eq!(parse_address("/"), Err(ConfigError::MalformedAddress));
}

#[test]
fn listen_multiaddr_for_the_direct_carrier() {
    let address = listen_multiaddr("0.0.0.0", 8500, TransportType::Tcp).unwrap();
    let parts: Vec<Protocol> = address.iter().collect();
    assert_eq!(parts, vec![Protocol::Ip4("0.0.0.0".parse().unwrap()), Protocol::Tcp(8500)]);
}

#[test]
fn listen_multiaddr_for_the_text_subprotocol_carrier() {
    let address = listen_multiaddr("192.168.1.7", 4000, TransportType::Ws).unwrap();
    assert_eq!(address.to_string(), "/ip4/192.168.1.7/tcp/4001/ws");
}

#[test]
fn listen_multiaddr_rejects_a_malformed_host() {
    assert_eq!(
        listen_multiaddr("not-a-host", 8500, TransportType::Tcp),
        Err(ConfigError::MalformedAddress)
    );
    assert_eq!(listen_multiaddr("", 8500, TransportType::Tcp), Err(ConfigError::MalformedAddress));
    assert_eq!(
        listen_multiaddr("1.2.3", 8500, TransportType::Ws),
        Err(ConfigError::MalformedAddress)
    );
}

#[test]
fn parser_error_becomes_malformed_address() {
    let rejected = address_from_parse(Err(libp2p::multiaddr::Error::InvalidMultiaddr));
    assert_eq!(rejected, Err(ConfigError::MalformedAddress));
    let rejected = address_from_parse(Err(libp2p::multiaddr::Error::UnknownProtocolId(7)));
    assert_eq!(rejected, Err(ConfigError::MalformedAddress));
    let address: Multiaddr = "/ip4/10.0.0.1/tcp/1".parse().unwrap();
    assert_eq!(address_from_parse(Ok(address.clone())), Ok(address));
}
