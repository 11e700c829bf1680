//! The node: one peer-to-peer server and one control-plane service, started
//! and stopped together.
//!
//! A start takes work that this library does not do: bringing the network
//! stack up and starting the control-plane server. So a start is a short
//! conversation. `start` hands out the bring-up of the peer-to-peer layer;
//! `open_end_points` is told how that went and hands out the address of the
//! control plane; `start_rpc` is given the server that was started there.
//! A stop takes two steps: `stop_rpc` hands out the control-plane server
//! for the caller to shut down, and `stop` then closes the node. The caller
//! holds the lifecycle lock for the whole of a start and of a stop.

pub mod error;
pub mod rpc_server;

pub use crate::address::TransportType;
use crate::address::socket_address;
use crate::identity::is_ed25519;
use crate::node::error::NodeError;
use crate::node::error::StartError;
use crate::node::rpc_server::HttpServer;
use crate::p2p::bringup_for;
use crate::p2p::config::P2PConfig;
use crate::p2p::config::Settings;
use crate::p2p::start_refusal;
use crate::p2p::Bringup;
use crate::p2p::P2PServer;
use jsonrpc_http_server::Server;
use vstd::prelude::*;

verus! {

/// The settings of a node: where the control plane listens, and the
/// settings of the peer-to-peer server.
pub struct NodeConfig {
    pub http_host: String,
    pub http_port: u16,
    pub p2p: P2PConfig,
}

impl NodeConfig {
    /// The settings made of the three parts.
    pub fn new(http_host: String, http_port: u16, p2p_config: P2PConfig) -> (config: Self)
        ensures
            config.http_host == http_host,
            config.http_port == http_port,
            config.p2p == p2p_config,
    {
        NodeConfig { http_host, http_port, p2p: p2p_config }
    }
}

/// Where a node is in its life.
#[derive(Clone, Copy, Debug, PartialEq, Eq, Structural)]
pub enum NodeState {
    /// Built, not started yet.
    Init,
    /// The peer-to-peer layer is up.
    Running,
    /// Stopped. A stopped node does not start again.
    Closed,
}

/// How far along its life a state is.
pub open spec fn rank(state: NodeState) -> nat {
    match state {
        NodeState::Init => 0,
        NodeState::Running => 1,
        NodeState::Closed => 2,
    }
}

/// What the lifecycle depends on: the state, whether the peer-to-peer server
/// runs, and the control-plane server, while one is up.
pub struct NodeView {
    pub state: NodeState,
    pub p2p_running: bool,
    pub control_plane: Option<Server>,
}

impl NodeView {
    /// The two services agree with the state: a running node has its
    /// peer-to-peer server running, a closed one has nothing running, and
    /// the control plane is up only on a running node.
    pub open spec fn wf(self) -> bool {
        match self.state {
            NodeState::Init => self.control_plane is None,
            NodeState::Running => self.p2p_running,
            NodeState::Closed => !self.p2p_running && self.control_plane is None,
        }
    }
}

/// A request to the lifecycle, together with how the outside work that it
/// stands for went.
pub enum NodeOp {
    /// `start`; `built` says whether the peer-to-peer server could build
    /// what its bring-up takes.
    Start { built: bool },
    /// `open_end_points`; `p2p_up` says whether the network stack came up.
    OpenEndPoints { p2p_up: bool },
    /// `start_rpc`; `server` is the control-plane server that came up, if
    /// one did.
    StartRpc { server: Option<Server> },
    /// `stop_rpc`.
    StopRpc,
    /// `stop`.
    Stop,
}

/// The node after a request.
pub open spec fn step(v: NodeView, op: NodeOp) -> NodeView {
    match op {
        NodeOp::Start { built } => if v.state == NodeState::Init && !v.p2p_running && built {
            NodeView { p2p_running: true, ..v }
        } else {
            v
        },
        NodeOp::OpenEndPoints { p2p_up } => if v.state == NodeState::Init && v.p2p_running {
            if p2p_up {
                NodeView { state: NodeState::Running, ..v }
            } else {
                NodeView { p2p_running: false, ..v }
            }
        } else {
            v
        },
        NodeOp::StartRpc { server } => if v.state == NodeState::Running && v.control_plane is None
            && server is Some {
            NodeView { control_plane: server, ..v }
        } else {
            v
        },
        NodeOp::StopRpc => NodeView { control_plane: None, ..v },
        NodeOp::Stop => if v.state == NodeState::Running {
            NodeView { state: NodeState::Closed, p2p_running: false, control_plane: None }
        } else {
            v
        },
    }
}

/// The node after a sequence of requests.
pub open spec fn run(v: NodeView, ops: Seq<NodeOp>) -> NodeView
    decreases ops.len(),
{
    if ops.len() == 0 {
        v
    } else {
        step(run(v, ops.drop_last()), ops.last())
    }
}

/// The error that `start` is refused with before anything is built, if it
/// is.
pub open spec fn start_verdict(v: NodeView, settings: Settings) -> Option<StartError> {
    match v.state {
        NodeState::Running => Some(StartError::Lifecycle(NodeError::NodeRunning)),
        NodeState::Closed => Some(StartError::Lifecycle(NodeError::NodeStopped)),
        NodeState::Init => start_refusal(v.p2p_running, settings),
    }
}

/// The error that `open_end_points` ends with, if it does.
pub open spec fn open_verdict(v: NodeView, p2p_up: bool) -> Option<StartError> {
    if !(v.state == NodeState::Init && v.p2p_running) {
        Some(StartError::NotStarting)
    } else if !p2p_up {
        Some(StartError::Transport)
    } else {
        None
    }
}

/// The error that `start_rpc` ends with, if it does.
pub open spec fn rpc_verdict(v: NodeView, server_up: bool) -> Option<StartError> {
    if !(v.state == NodeState::Running && v.control_plane is None) {
        Some(StartError::NotStarting)
    } else if !server_up {
        Some(StartError::ControlPlane)
    } else {
        None
    }
}

/// A control-plane server that the node did not take over, if one was
/// handed in, with the reason.
pub struct Refused {
    pub error: StartError,
    pub server: Option<Server>,
}

/// A request leaves the state where it is or moves it one step on, from
/// initial to running or from running to closed, and a sound node stays
/// sound.
pub proof fn lemma_step_progresses(v: NodeView, op: NodeOp)
    ensures
        step(v, op).state == v.state || rank(step(v, op).state) == rank(v.state) + 1,
        v.wf() ==> step(v, op).wf(),
{
}

/// Along any sequence of requests the state never moves back: what the node
/// has reached after some of them, it has reached or passed after more of
/// them. A sound node stays sound throughout.
pub proof fn lemma_run_progresses(v: NodeView, ops: Seq<NodeOp>, i: int, j: int)
    requires
        0 <= i <= j <= ops.len(),
    ensures
        rank(run(v, ops.take(i)).state) <= rank(run(v, ops.take(j)).state),
        v.wf() ==> run(v, ops.take(j)).wf(),
    decreases j,
{
    if j == 0 {
        assert(ops.take(0).len() == 0);
    } else {
        assert(ops.take(j).drop_last() =~= ops.take(j - 1));
        assert(ops.take(j).last() == ops[j - 1]);
        lemma_step_progresses(run(v, ops.take(j - 1)), ops[j - 1]);
        if i < j {
            lemma_run_progresses(v, ops, i, j - 1);
        } else {
            lemma_run_progresses(v, ops, j - 1, j - 1);
        }
    }
}

/// A closed node stays closed: no sequence of requests changes it, a stop
/// among them does nothing, and a start is refused with `NodeStopped`.
pub proof fn lemma_closed_is_absorbing(v: NodeView, ops: Seq<NodeOp>, settings: Settings)
    requires
        v.wf(),
        v.state == NodeState::Closed,
    ensures
        run(v, ops) == v,
        step(v, NodeOp::Stop) == v,
        start_verdict(run(v, ops), settings) == Some(
            StartError::Lifecycle(NodeError::NodeStopped),
        ),
    decreases ops.len(),
{
    if ops.len() > 0 {
        lemma_closed_is_absorbing(v, ops.drop_last(), settings);
    }
}

/// Of two starts in a row the second is refused with `NodeRunning` if the
/// first went through, with or without its control plane, and the refusal
/// changes nothing.
pub proof fn lemma_second_start_is_refused(
    v: NodeView,
    settings: Settings,
    server: Option<Server>,
    built: bool,
)
    requires
        v.wf(),
        v.state == NodeState::Init,
        start_verdict(v, settings) is None,
    ensures
        ({
            let begun = step(v, NodeOp::Start { built: true });
            let up = step(begun, NodeOp::OpenEndPoints { p2p_up: true });
            let started = step(up, NodeOp::StartRpc { server });
            &&& started.state == NodeState::Running
            &&& start_verdict(started, settings) == Some(
                StartError::Lifecycle(NodeError::NodeRunning),
            )
            &&& step(started, NodeOp::Start { built }) == started
        }),
{
}

/// A start whose network stack does not come up leaves the node as it was
/// before the start.
pub proof fn lemma_failed_start_is_undone(v: NodeView, settings: Settings)
    requires
        v.wf(),
        v.state == NodeState::Init,
        start_verdict(v, settings) is None,
    ensures
        step(step(v, NodeOp::Start { built: true }), NodeOp::OpenEndPoints { p2p_up: false })
            == v,
        step(v, NodeOp::Start { built: false }) == v,
{
}

/// Tearing the control plane down leaves the state where it is, and a
/// stop that follows closes a running node just as a stop alone does.
pub proof fn lemma_stop_after_stop_rpc(v: NodeView)
    ensures
        step(v, NodeOp::StopRpc).state == v.state,
        step(v, NodeOp::StopRpc).control_plane is None,
        step(step(v, NodeOp::StopRpc), NodeOp::Stop).state == step(v, NodeOp::Stop).state,
        v.state == NodeState::Running ==> step(step(v, NodeOp::StopRpc), NodeOp::Stop) == step(
            v,
            NodeOp::Stop,
        ),
{
}

/// A stop of a running node closes it, whatever its services were doing,
/// and a second stop changes nothing.
pub proof fn lemma_stop_twice(v: NodeView)
    requires
        v.wf(),
        v.state == NodeState::Running,
    ensures
        step(v, NodeOp::Stop).state == NodeState::Closed,
        !step(v, NodeOp::Stop).p2p_running,
        step(v, NodeOp::Stop).control_plane is None,
        step(step(v, NodeOp::Stop), NodeOp::Stop) == step(v, NodeOp::Stop),
{
}

/// A node.
pub struct Node {
    config: NodeConfig,
    server: P2PServer,
    http: HttpServer,
    state: NodeState,
}

impl View for Node {
    type V = NodeView;

    closed spec fn view(&self) -> NodeView {
        NodeView {
            state: self.state,
            p2p_running: self.server.running(),
            control_plane: self.http.server(),
        }
    }
}

impl Node {
    /// The settings of the peer-to-peer server.
    pub closed spec fn settings(&self) -> Settings {
        self.config.p2p@
    }

    /// The host of the control plane.
    pub closed spec fn http_host(&self) -> Seq<char> {
        self.config.http_host@
    }

    /// The port of the control plane.
    pub closed spec fn http_port(&self) -> u16 {
        self.config.http_port
    }

    /// The node is sound: the services agree with the state, and the server
    /// runs on the node's settings.
    pub closed spec fn wf(&self) -> bool {
        &&& self@.wf()
        &&& self.server.wf()
        &&& self.server.settings() == self.config.p2p@
    }

    /// A node with the given settings, in its initial state: nothing runs.
    pub fn new(config: NodeConfig) -> (r: Result<Self, NodeError>)
        ensures
            r is Ok,
            r->Ok_0.wf(),
            r->Ok_0@ == (NodeView {
                state: NodeState::Init,
                p2p_running: false,
                control_plane: None,
            }),
            r->Ok_0.settings() == config.p2p@,
            r->Ok_0.http_host() == config.http_host@,
            r->Ok_0.http_port() == config.http_port,
    {
        let http = HttpServer::new(config.http_host.clone(), config.http_port);
        let server = P2PServer::new(config.p2p.clone()).unwrap();
        Ok(Node { http, server, config, state: NodeState::Init })
    }

    /// Where the node is in its life.
    pub fn state(&self) -> (state: NodeState)
        ensures
            state == self@.state,
    {
        self.state
    }

    /// Whether the peer-to-peer server runs: a start is under way, or the
    /// node is running.
    pub fn is_p2p_running(&self) -> (running: bool)
        ensures
            running == self@.p2p_running,
    {
        self.server.is_running()
    }

    /// Whether the control plane is up.
    pub fn has_control_plane(&self) -> (up: bool)
        ensures
            up == self@.control_plane is Some,
    {
        self.http.is_enabled()
    }

    /// Begins a start.
    ///
    /// Fails with `NodeRunning` on a running node and with `NodeStopped` on
    /// a closed one. On a node in its initial state the peer-to-peer server
    /// is started, which fails with `ServerRunning` while an earlier start is
    /// still under way, with `Config` on a malformed listen address, and
    /// with `Transport` where the transport cannot be built, which does not
    /// happen with an Ed25519 identity.
    ///
    /// On success the bring-up of the network stack is handed out. The node
    /// stays in its initial state until `open_end_points` is told that the
    /// stack is up. A start that fails leaves the node as it was.
    pub fn start(&mut self) -> (r: Result<Bringup, StartError>)
        requires
            old(self).wf(),
        ensures
            final(self).wf(),
            final(self).settings() == old(self).settings(),
            final(self).http_host() == old(self).http_host(),
            final(self).http_port() == old(self).http_port(),
            final(self)@ == step(old(self)@, NodeOp::Start { built: r is Ok }),
            start_verdict(old(self)@, old(self).settings()) is None && is_ed25519(
                old(self).settings().private_key,
            ) ==> r is Ok,
            match r {
                Ok(plan) => {
                    &&& start_verdict(old(self)@, old(self).settings()) is None
                    &&& bringup_for(plan, old(self).settings())
                },
                Err(e) => {
                    &&& *final(self) == *old(self)
                    &&& e == match start_verdict(old(self)@, old(self).settings()) {
                        Some(refusal) => refusal,
                        None => StartError::Transport,
                    }
                },
            },
    {
        match self.state {
            NodeState::Running => Err(StartError::Lifecycle(NodeError::NodeRunning)),
            NodeState::Closed => Err(StartError::Lifecycle(NodeError::NodeStopped)),
            NodeState::Init => self.server.start(),
        }
    }

    /// Takes note of how the bring-up of the network stack went.
    ///
    /// If it failed, the start is undone: the peer-to-peer server is
    /// stopped, the node is in its initial state again, and the error is
    /// `Transport`. If the stack is up, the node is running from now on, and
    /// the address for the control-plane server to bind is handed out.
    ///
    /// Fails with `NotStarting`, and changes nothing, where no start is
    /// under way.
    pub fn open_end_points(&mut self, p2p_up: bool) -> (r: Result<String, StartError>)
        requires
            old(self).wf(),
        ensures
            final(self).wf(),
            final(self).settings() == old(self).settings(),
            final(self).http_host() == old(self).http_host(),
            final(self).http_port() == old(self).http_port(),
            final(self)@ == step(old(self)@, NodeOp::OpenEndPoints { p2p_up }),
            match r {
                Ok(bind) => {
                    &&& open_verdict(old(self)@, p2p_up) is None
                    &&& bind@ == socket_address(old(self).http_host(), old(self).http_port())
                },
                Err(e) => open_verdict(old(self)@, p2p_up) == Some(e),
            },
    {
        let starting = match self.state {
            NodeState::Init => self.server.is_running(),
            _ => false,
        };
        if !starting {
            return Err(StartError::NotStarting);
        }
        if !p2p_up {
            self.server.stop();
            return Err(StartError::Transport);
        }
        self.state = NodeState::Running;
        let _ = self.http.set_listen_addr(self.config.http_host.clone(), self.config.http_port);
        Ok(self.http.listen_addr())
    }

    /// Takes over the control-plane server that was started, or takes note
    /// that none could be.
    ///
    /// On a running node without a control plane, a server that is handed in
    /// is kept, and the start is complete; `None` fails with `ControlPlane`
    /// and leaves the node running without its control plane.
    ///
    /// Fails with `NotStarting`, and changes nothing, on any other node. A
    /// server handed in then comes back with the error, for the caller to
    /// shut down.
    pub fn start_rpc(&mut self, server: Option<Server>) -> (r: Result<(), Refused>)
        requires
            old(self).wf(),
        ensures
            final(self).wf(),
            final(self).settings() == old(self).settings(),
            final(self).http_host() == old(self).http_host(),
            final(self).http_port() == old(self).http_port(),
            final(self)@ == step(old(self)@, NodeOp::StartRpc { server }),
            match r {
                Ok(_) => rpc_verdict(old(self)@, server is Some) is None,
                Err(refused) => {
                    &&& rpc_verdict(old(self)@, server is Some) == Some(refused.error)
                    &&& refused.server == server
                    &&& *final(self) == *old(self)
                },
            },
    {
        let waiting = match self.state {
            NodeState::Running => !self.http.is_enabled(),
            _ => false,
        };
        if !waiting {
            return Err(Refused { error: StartError::NotStarting, server });
        }
        match server {
            Some(server) => {
                let _ = self.http.enable(server);
                Ok(())
            },
            None => Err(Refused { error: StartError::ControlPlane, server: None }),
        }
    }

    /// Tears the control plane down: the control-plane service is stopped,
    /// and the handle of its server, if one was up, is handed out for the
    /// caller to shut down. The node stays in the state it is in.
    ///
    /// This is the first step of stopping a running node: the caller shuts
    /// the server down and then calls `stop`, so that the node is closed
    /// only once its control plane is gone.
    pub fn stop_rpc(&mut self) -> (server: Option<Server>)
        requires
            old(self).wf(),
        ensures
            final(self).wf(),
            final(self).settings() == old(self).settings(),
            final(self).http_host() == old(self).http_host(),
            final(self).http_port() == old(self).http_port(),
            final(self)@ == step(old(self)@, NodeOp::StopRpc),
            server == old(self)@.control_plane,
    {
        self.http.stop()
    }

    /// Stops the node.
    ///
    /// On a running node the outbound channel is closed, which ends the
    /// event loop, and the node is closed, whatever state its services were
    /// in. A control plane that `stop_rpc` has not torn down before is torn
    /// down here, and the handle of its server is handed back for the caller
    /// to shut down.
    ///
    /// On a node that is not running, nothing happens.
    pub fn stop(&mut self) -> (server: Option<Server>)
        requires
            old(self).wf(),
        ensures
            final(self).wf(),
            final(self).settings() == old(self).settings(),
            final(self).http_host() == old(self).http_host(),
            final(self).http_port() == old(self).http_port(),
            final(self)@ == step(old(self)@, NodeOp::Stop),
            server == if old(self)@.state == NodeState::Running {
                old(self)@.control_plane
            } else {
                None
            },
            old(self)@.state != NodeState::Running ==> *final(self) == *old(self),
    {
        match self.state {
            NodeState::Init => None,
            NodeState::Running => {
                let server = self.stop_rpc();
                self.server.stop();
                self.state = NodeState::Closed;
                server
            },
            NodeState::Closed => None,
        }
    }
}

} // verus!
