use futures::channel::mpsc::Receiver;
use jsonrpc_http_server::jsonrpc_core::IoHandler;
use jsonrpc_http_server::Server;
use jsonrpc_http_server::ServerBuilder;
use p2p_node::address::ConfigError;
use p2p_node::node::error::NodeError;
use p2p_node::node::error::StartError;
use p2p_node::node::rpc_server::HttpServer;
use p2p_node::node::Node;
use p2p_node::node::NodeConfig;
use p2p_node::node::NodeState;
use p2p_node::node::Refused;
use p2p_node::p2p::bringup::BringupStep;
use p2p_node::p2p::config::P2PConfig;
use p2p_node::p2p::config::P2PConfigBuilder;
use p2p_node::p2p::error::P2PError;

fn fresh_node() -> Node {
    let config = NodeConfig::new("127.0.0.1".to_string(), 8585, P2PConfig::default());
    Node::new(config).unwrap()
}

fn running_node() -> Node {
    let mut node = fresh_node();
    assert!(node.start().is_ok());
    assert_eq!(node.open_end_points(true), Ok("127.0.0.1:8585".to_string()));
    node
}

fn refusal(r: Result<(), Refused>) -> Option<(StartError, bool)> {
    r.err().map(|refused| (refused.error, refused.server.is_some()))
}

fn local_server() -> Server {
    let address = "127.0.0.1:0".parse().unwrap();
    ServerBuilder::new(IoHandler::default()).threads(1).start_http(&address).unwrap()
}

/// What the receiving end yields right now: a message, `None` at the end of
/// the channel, or an error while the channel is empty but open.
fn node_yield(receiver: &mut Receiver<String>) -> Result<Option<String>, ()> {
    match receiver.try_recv() {
        Ok(message) => Ok(Some(message)),
        Err(e) if e.is_closed() => Ok(None),
        Err(_) => Err(()),
    }
}

#[test]
fn node_config_holds_its_parts() {
    let p2p = P2PConfigBuilder::default().set_port(4000).build();
    let peer_id = p2p.peer_id();
    let config = NodeConfig::new("localhost".to_string(), 9000, p2p);
    assert_eq!(config.http_host, "localhost");
    assert_eq!(config.http_port, 9000);
    assert_eq!(config.p2p.port(), 4000);
    assert_eq!(config.p2p.peer_id(), peer_id);
}

#[test]
fn new_node_is_in_its_initial_state() {
    let node = fresh_node();
    assert_eq!(node.state(), NodeState::Init);
    assert!(!node.is_p2p_running());
    assert!(!node.has_control_plane());
}

#[test]
fn start_goes_through_in_three_steps() {
    let mut node = fresh_node();
    let mut plan = match node.start() {
        Ok(plan) => plan,
        Err(e) => panic!("start failed: {:?}", e),
    };
    assert!(matches!(plan.script.advance(true), BringupStep::Discover));
    match plan.script.advance(true) {
        BringupStep::Listen(listen) => assert_eq!(listen.to_string(), "/ip4/0.0.0.0/tcp/8500"),
        _ => panic!("the listener comes after discovery"),
    }
    assert!(matches!(plan.script.advance(true), BringupStep::Run));
    assert_eq!(node.state(), NodeState::Init);
    assert!(node.is_p2p_running());
    assert_eq!(node.open_end_points(true), Ok("127.0.0.1:8585".to_string()));
    assert_eq!(node.state(), NodeState::Running);
    assert!(!node.has_control_plane());
    assert!(node.start_rpc(Some(local_server())).is_ok());
    assert_eq!(node.state(), NodeState::Running);
    assert!(node.has_control_plane());
    assert!(node.is_p2p_running());
}

#[test]
fn second_start_fails_with_node_running() {
    let mut node = running_node();
    assert!(matches!(node.start(), Err(StartError::Lifecycle(NodeError::NodeRunning))));
    assert_eq!(node.state(), NodeState::Running);
    assert_eq!(refusal(node.start_rpc(None)), Some((StartError::ControlPlane, false)));
    assert!(matches!(node.start(), Err(StartError::Lifecycle(NodeError::NodeRunning))));
    assert_eq!(node.state(), NodeState::Running);
    assert!(node.is_p2p_running());
}

#[test]
fn start_during_a_start_is_refused_by_the_server() {
    let mut node = fresh_node();
    assert!(node.start().is_ok());
    assert!(matches!(node.start(), Err(StartError::Server(P2PError::ServerRunning))));
    assert_eq!(node.state(), NodeState::Init);
    assert!(node.is_p2p_running());
}

#[test]
fn failed_bringup_is_undone() {
    let mut node = fresh_node();
    let mut plan = match node.start() {
        Ok(plan) => plan,
        Err(e) => panic!("start failed: {:?}", e),
    };
    assert_eq!(node.open_end_points(false), Err(StartError::Transport));
    assert_eq!(node.state(), NodeState::Init);
    assert!(!node.is_p2p_running());
    // The channel of the abandoned bring-up is closed.
    assert_eq!(node_yield(&mut plan.receiver).unwrap(), None);
    // The node can be started again.
    assert!(node.start().is_ok());
    assert_eq!(node.open_end_points(true), Ok("127.0.0.1:8585".to_string()));
    assert_eq!(node.state(), NodeState::Running);
}

#[test]
fn malformed_listen_address_aborts_the_start() {
    let p2p = P2PConfigBuilder::default().set_host("256.0.0.1".to_string()).build();
    let mut node = Node::new(NodeConfig::new("127.0.0.1".to_string(), 8585, p2p)).unwrap();
    assert!(matches!(node.start(), Err(StartError::Config(ConfigError::MalformedAddress))));
    assert_eq!(node.state(), NodeState::Init);
    assert!(!node.is_p2p_running());
    assert_eq!(node.open_end_points(true), Err(StartError::NotStarting));
    assert_eq!(node.state(), NodeState::Init);
}

#[test]
fn steps_out_of_turn_are_refused() {
    let mut node = fresh_node();
    assert_eq!(node.open_end_points(true), Err(StartError::NotStarting));
    assert_eq!(node.open_end_points(false), Err(StartError::NotStarting));
    assert_eq!(refusal(node.start_rpc(None)), Some((StartError::NotStarting, false)));
    assert_eq!(node.state(), NodeState::Init);
    assert!(node.start().is_ok());
    assert_eq!(refusal(node.start_rpc(None)), Some((StartError::NotStarting, false)));
    assert_eq!(node.open_end_points(true), Ok("127.0.0.1:8585".to_string()));
    assert_eq!(node.open_end_points(true), Err(StartError::NotStarting));
    assert_eq!(node.state(), NodeState::Running);
}

#[test]
fn control_plane_failure_leaves_the_node_running() {
    let mut node = running_node();
    assert_eq!(refusal(node.start_rpc(None)), Some((StartError::ControlPlane, false)));
    assert_eq!(node.state(), NodeState::Running);
    assert!(node.is_p2p_running());
    assert!(!node.has_control_plane());
    // The control plane can still be brought up later.
    assert!(node.start_rpc(Some(local_server())).is_ok());
    assert!(node.has_control_plane());
    assert_eq!(refusal(node.start_rpc(None)), Some((StartError::NotStarting, false)));
    assert!(node.has_control_plane());
}

#[test]
fn server_handed_to_a_node_that_waits_for_none_is_not_kept() {
    let mut node = fresh_node();
    let server = local_server();
    let address = *server.address();
    match node.start_rpc(Some(server)) {
        Err(refused) => {
            assert_eq!(refused.error, StartError::NotStarting);
            assert_eq!(refused.server.map(|s| *s.address()), Some(address));
        }
        Ok(()) => panic!("a node that was not started takes no server"),
    }
    assert!(!node.has_control_plane());
    assert_eq!(node.state(), NodeState::Init);
}

#[test]
fn stop_of_a_new_node_does_nothing() {
    let mut node = fresh_node();
    assert!(node.stop().is_none());
    assert_eq!(node.state(), NodeState::Init);
    assert!(node.start().is_ok());
    assert!(node.stop().is_none());
    assert_eq!(node.state(), NodeState::Init);
    assert!(node.is_p2p_running());
    assert_eq!(node.open_end_points(true), Ok("127.0.0.1:8585".to_string()));
    assert_eq!(node.state(), NodeState::Running);
}

#[test]
fn stop_closes_a_running_node() {
    let mut node = fresh_node();
    let mut plan = match node.start() {
        Ok(plan) => plan,
        Err(e) => panic!("start failed: {:?}", e),
    };
    node.open_end_points(true).unwrap();
    let server = local_server();
    let address = *server.address();
    assert!(node.start_rpc(Some(server)).is_ok());
    let handed_back = node.stop();
    assert_eq!(handed_back.map(|s| *s.address()), Some(address));
    assert_eq!(node.state(), NodeState::Closed);
    assert!(!node.is_p2p_running());
    assert!(!node.has_control_plane());
    assert_eq!(node_yield(&mut plan.receiver).unwrap(), None);
}

#[test]
fn stop_closes_a_node_without_control_plane() {
    let mut node = running_node();
    assert!(node.stop().is_none());
    assert_eq!(node.state(), NodeState::Closed);
    assert!(!node.is_p2p_running());
}

#[test]
fn stop_twice_ends_closed() {
    let mut node = running_node();
    node.stop();
    assert_eq!(node.state(), NodeState::Closed);
    assert!(node.stop().is_none());
    assert_eq!(node.state(), NodeState::Closed);
    assert!(!node.is_p2p_running());
    assert!(!node.has_control_plane());
}

#[test]
fn closed_node_does_not_start_again() {
    let mut node = running_node();
    node.stop();
    assert!(matches!(node.start(), Err(StartError::Lifecycle(NodeError::NodeStopped))));
    assert_eq!(node.open_end_points(true), Err(StartError::NotStarting));
    assert_eq!(refusal(node.start_rpc(None)), Some((StartError::NotStarting, false)));
    assert!(node.stop().is_none());
    assert!(matches!(node.start(), Err(StartError::Lifecycle(NodeError::NodeStopped))));
    assert_eq!(node.state(), NodeState::Closed);
    assert!(!node.is_p2p_running());
}

#[test]
fn state_never_moves_back() {
    let mut node = fresh_node();
    let mut reached = vec![node.state()];
    let _ = node.stop();
    reached.push(node.state());
    let _ = node.start();
    reached.push(node.state());
    let _ = node.open_end_points(false);
    reached.push(node.state());
    let _ = node.start();
    reached.push(node.state());
    let _ = node.open_end_points(true);
    reached.push(node.state());
    let _ = node.start();
    reached.push(node.state());
    let _ = node.start_rpc(None);
    reached.push(node.state());
    let _ = node.stop();
    reached.push(node.state());
    let _ = node.start();
    reached.push(node.state());
    let _ = node.open_end_points(true);
    reached.push(node.state());
    let _ = node.stop();
    reached.push(node.state());
    assert_eq!(
        reached,
        vec![
            NodeState::Init,
            NodeState::Init,
            NodeState::Init,
            NodeState::Init,
            NodeState::Init,
            NodeState::Running,
            NodeState::Running,
            NodeState::Running,
            NodeState::Closed,
            NodeState::Closed,
            NodeState::Closed,
            NodeState::Closed
        ]
    );
}

#[test]
fn errors_of_the_node_have_their_text() {
    assert_eq!(NodeError::NodeStopped.message(), "node stopped");
    assert_eq!(NodeError::NodeRunning.message(), "node already running");
}

#[test]
fn control_plane_service_keeps_its_address() {
    let mut http = HttpServer::new("127.0.0.1".to_string(), 8585);
    assert!(!http.is_enabled());
    assert_eq!(http.listen_addr(), "127.0.0.1:8585");
    assert_eq!(http.set_listen_addr("0.0.0.0".to_string(), 80), Ok(()));
    assert_eq!(http.listen_addr(), "0.0.0.0:80");
    assert!(!http.is_enabled());
}

#[test]
fn control_plane_service_holds_the_server_while_enabled() {
    let mut http = HttpServer::new("127.0.0.1".to_string(), 8585);
    let first = local_server();
    let first_address = *first.address();
    assert!(http.enable(first).is_none());
    assert!(http.is_enabled());
    assert_eq!(http.listen_addr(), "127.0.0.1:8585");
    let second = local_server();
    let second_address = *second.address();
    let previous = http.enable(second);
    assert_eq!(previous.map(|s| *s.address()), Some(first_address));
    assert!(http.is_enabled());
    let stopped = http.stop();
    assert_eq!(stopped.map(|s| *s.address()), Some(second_address));
    assert!(!http.is_enabled());
    assert_eq!(http.listen_addr(), ":0");
    assert!(http.stop().is_none());
}

#[test]
fn control_plane_is_torn_down_before_the_node_is_closed() {
    let mut node = running_node();
    let server = local_server();
    let address = *server.address();
    assert!(node.start_rpc(Some(server)).is_ok());
    let handed_out = node.stop_rpc();
    assert_eq!(handed_out.map(|s| *s.address()), Some(address));
    assert_eq!(node.state(), NodeState::Running);
    assert!(node.is_p2p_running());
    assert!(!node.has_control_plane());
    assert!(node.stop().is_none());
    assert_eq!(node.state(), NodeState::Closed);
    assert!(!node.is_p2p_running());
}

#[test]
fn stop_rpc_without_a_control_plane_hands_out_nothing() {
    let mut node = fresh_node();
    assert!(node.stop_rpc().is_none());
    assert_eq!(node.state(), NodeState::Init);
    let mut node = running_node();
    assert!(node.stop_rpc().is_none());
    assert_eq!(node.state(), NodeState::Running);
    node.stop();
    assert!(node.stop_rpc().is_none());
    assert_eq!(node.state(), NodeState::Closed);
}

#[test]
fn node_with_a_generated_identity_and_a_sound_address_starts() {
    for port in [0u16, 1, 8500, 65535] {
        let p2p = P2PConfigBuilder::default().set_host("127.0.0.1".to_string()).set_port(port).build();
        let mut node = Node::new(NodeConfig::new("127.0.0.1".to_string(), 8585, p2p)).unwrap();
        assert!(node.start().is_ok());
        assert!(node.is_p2p_running());
    }
}
