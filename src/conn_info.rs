//! Identities and configuration records: pure data, no behaviour.

use vstd::prelude::*;
use vstd::string::*;

verus! {

/// How far a route reaches.
#[derive(Clone, Copy, Debug, PartialEq, Eq, Hash, Structural)]
pub enum RouteScope {
    ScopeClient,
    ScopeLocal,
    ScopeRegion,
    ScopeCluster,
    ScopeGlobal,
}

/// Which side opened a connection: `Client` when this node dialed out,
/// `Server` when the remote node dialed in.
#[derive(Clone, Copy, Debug, PartialEq, Eq, Hash, Structural)]
pub enum SwbusConnMode {
    Client,
    Server,
}

/// A route this node advertises as reachable through itself.
#[derive(Clone, Debug, PartialEq, Eq, Hash)]
pub struct RouteConfig {
    /// Service path of the route, in its dotted text form.
    pub key: String,
    pub scope: RouteScope,
}

/// A peer to which this node should hold an outbound connection.
#[derive(Clone, Debug, PartialEq, Eq, Hash)]
pub struct PeerConfig {
    pub scope: RouteScope,
    /// Remote endpoint address, in its text form (`127.0.0.1:8080`).
    pub endpoint: String,
    /// Service path of the peer, in its dotted text form.
    pub id: String,
}

pub struct RouteView {
    pub key: Seq<char>,
    pub scope: RouteScope,
}

pub struct PeerView {
    pub scope: RouteScope,
    pub endpoint: Seq<char>,
    pub id: Seq<char>,
}

impl View for RouteConfig {
    type V = RouteView;

    open spec fn view(&self) -> RouteView {
        RouteView { key: self.key@, scope: self.scope }
    }
}

impl View for PeerConfig {
    type V = PeerView;

    open spec fn view(&self) -> PeerView {
        PeerView { scope: self.scope, endpoint: self.endpoint@, id: self.id@ }
    }
}

/// The identity of a connection: the key of the connection registry.
/// Two identities are equal exactly when all their fields are.
#[derive(Clone, Debug, PartialEq, Eq, Hash)]
pub struct SwbusConnInfo {
    scope: RouteScope,
    remote_addr: String,
    remote_service_path: String,
    local_service_path: String,
    mode: SwbusConnMode,
}

pub struct ConnInfoView {
    pub scope: RouteScope,
    pub remote_addr: Seq<char>,
    pub remote_service_path: Seq<char>,
    pub local_service_path: Seq<char>,
    pub mode: SwbusConnMode,
}

impl View for SwbusConnInfo {
    type V = ConnInfoView;

    closed spec fn view(&self) -> ConnInfoView {
        ConnInfoView {
            scope: self.scope,
            remote_addr: self.remote_addr@,
            remote_service_path: self.remote_service_path@,
            local_service_path: self.local_service_path@,
            mode: self.mode,
        }
    }
}

/// The identity of the connection this node opens to `peer`, advertising
/// the route whose key is `local`.
pub open spec fn client_identity(peer: PeerView, local: Seq<char>) -> ConnInfoView {
    ConnInfoView {
        scope: peer.scope,
        remote_addr: peer.endpoint,
        remote_service_path: peer.id,
        local_service_path: local,
        mode: SwbusConnMode::Client,
    }
}

/// Text form of an identity: the direction, then the remote endpoint.
pub open spec fn identity_text(v: ConnInfoView) -> Seq<char> {
    match v.mode {
        SwbusConnMode::Client => "swbs-to://"@ + v.remote_addr,
        SwbusConnMode::Server => "swbs-from://"@ + v.remote_addr,
    }
}

impl SwbusConnInfo {
    /// The identity of a connection that this node opens.
    pub fn new_client(scope: RouteScope, remote_addr: String, remote_service_path: String, local_service_path: String) -> (r: Self)
        ensures
            r@ == (ConnInfoView {
                scope,
                remote_addr: remote_addr@,
                remote_service_path: remote_service_path@,
                local_service_path: local_service_path@,
                mode: SwbusConnMode::Client,
            }),
    {
        SwbusConnInfo { scope, remote_addr, remote_service_path, local_service_path, mode: SwbusConnMode::Client }
    }

    /// The identity of a connection that a remote node opened to this one.
    pub fn new_server(scope: RouteScope, remote_addr: String, remote_service_path: String, local_service_path: String) -> (r: Self)
        ensures
            r@ == (ConnInfoView {
                scope,
                remote_addr: remote_addr@,
                remote_service_path: remote_service_path@,
                local_service_path: local_service_path@,
                mode: SwbusConnMode::Server,
            }),
    {
        SwbusConnInfo { scope, remote_addr, remote_service_path, local_service_path, mode: SwbusConnMode::Server }
    }

    /// A copy with the same fields.
    pub fn duplicate(&self) -> (r: Self)
        ensures
            r@ == self@,
    {
        SwbusConnInfo {
            scope: self.scope,
            remote_addr: self.remote_addr.clone(),
            remote_service_path: self.remote_service_path.clone(),
            local_service_path: self.local_service_path.clone(),
            mode: self.mode,
        }
    }

    /// Text form of the identity, `swbs-to://<endpoint>` for a connection this
    /// node opened and `swbs-from://<endpoint>` for one it accepted.
    pub fn id(&self) -> (r: String)
        ensures
            r@ == identity_text(self@),
    {
        let mut text = match self.mode {
            SwbusConnMode::Client => String::from_str("swbs-to://"),
            SwbusConnMode::Server => String::from_str("swbs-from://"),
        };
        text.append(self.remote_addr.as_str());
        text
    }

    pub fn mode(&self) -> (r: SwbusConnMode)
        ensures
            r == self@.mode,
    {
        self.mode
    }

    pub fn scope(&self) -> (r: RouteScope)
        ensures
            r == self@.scope,
    {
        self.scope
    }

    pub fn remote_addr(&self) -> (r: &String)
        ensures
            r@ == self@.remote_addr,
    {
        &self.remote_addr
    }

    pub fn remote_service_path(&self) -> (r: &String)
        ensures
            r@ == self@.remote_service_path,
    {
        &self.remote_service_path
    }

    pub fn local_service_path(&self) -> (r: &String)
        ensures
            r@ == self@.local_service_path,
    {
        &self.local_service_path
    }
}

} // verus!
