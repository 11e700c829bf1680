//! The control-plane service as the node sees it: where it is to listen, and
//! the handle of the running server while there is one.
//!
//! Binding the socket and serving requests happen outside this library; the
//! handle of the server that was started is handed in, and handed back when
//! the service stops.

use crate::address::socket_address;
use crate::address::socket_address_text;
use crate::node::error::NodeError;
use jsonrpc_http_server::Server;
use vstd::prelude::*;

verus! {

/// The handle of a running JSON-RPC server. Letting go of it shuts the
/// server down.
#[verifier::external_type_specification]
#[verifier::external_body]
pub struct ExServer(Server);

/// The control-plane service of a node.
pub struct HttpServer {
    internal_server: Option<Server>,
    host: String,
    port: u16,
}

impl HttpServer {
    /// The host to listen on.
    pub closed spec fn host(&self) -> Seq<char> {
        self.host@
    }

    /// The port to listen on.
    pub closed spec fn port(&self) -> u16 {
        self.port
    }

    /// The handle of the running server, if the service is enabled.
    pub closed spec fn server(&self) -> Option<Server> {
        self.internal_server
    }

    /// Whether the service is enabled.
    pub open spec fn enabled(&self) -> bool {
        self.server() is Some
    }

    /// A service for the given address, not enabled.
    pub fn new(host: String, port: u16) -> (http: Self)
        ensures
            http.host() == host@,
            http.port() == port,
            !http.enabled(),
    {
        HttpServer { internal_server: None, host, port }
    }

    /// Sets the address to listen on. The running server, if there is one,
    /// is not affected.
    pub fn set_listen_addr(&mut self, host: String, port: u16) -> (r: Result<(), NodeError>)
        ensures
            r is Ok,
            final(self).host() == host@,
            final(self).port() == port,
            final(self).server() == old(self).server(),
    {
        self.host = host;
        self.port = port;
        Ok(())
    }

    /// The text of the address to bind, `<host>:<port>`.
    pub fn listen_addr(&self) -> (text: String)
        ensures
            text@ == socket_address(self.host(), self.port()),
    {
        socket_address_text(self.host.as_str(), self.port)
    }

    /// Whether the service is enabled.
    pub fn is_enabled(&self) -> (enabled: bool)
        ensures
            enabled == self.enabled(),
    {
        self.internal_server.is_some()
    }

    /// Takes over the handle of the server that was started for this
    /// service. Returns the handle held before, if there was one, for the
    /// caller to shut down.
    pub fn enable(&mut self, server: Server) -> (previous: Option<Server>)
        ensures
            previous == old(self).server(),
            final(self).server() == Some(server),
            final(self).host() == old(self).host(),
            final(self).port() == old(self).port(),
    {
        let previous = self.internal_server.take();
        self.internal_server = Some(server);
        previous
    }

    /// Stops the service: forgets the address and hands back the handle of
    /// the running server, if there is one, for the caller to shut down.
    pub fn stop(&mut self) -> (server: Option<Server>)
        ensures
            server == old(self).server(),
            !final(self).enabled(),
            final(self).host() == Seq::<char>::empty(),
            final(self).port() == 0,
    {
        self.host = String::new();
        self.port = 0;
        self.internal_server.take()
    }
}

} // verus!
