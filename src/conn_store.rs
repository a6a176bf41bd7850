//! The connection store: the registry of connection trackers keyed by
//! identity, the owned routes, and the retry policy of connect tasks.
//!
//! The store decides; whoever owns it runs the tasks. `add_peer` and
//! `conn_lost` hand back a `ConnectRequest`; the owner spawns a task for it,
//! records it with `start_connect_task`, and the task asks `after_attempt`
//! what to do after each attempt, until `conn_established` records the live
//! connection.

use crate::conn_info::{client_identity, PeerConfig, RouteConfig, RouteView, SwbusConnInfo, SwbusConnMode};
use crate::external::{
    conn_table_get_state, conn_table_insert, conn_table_len, conn_table_new, conn_table_remove, owned_routes,
    route_set_first, route_set_insert, route_set_new, tracked_conns, ConnTable, RouteSet,
};
use crate::model::{
    has_route, reconnects, retry_interval, with_established, with_pending, with_route, without, StoreView,
};
use tokio::task::JoinHandle;
use vstd::prelude::*;

verus! {

/// What a tracker holds, without the handles.
#[derive(Clone, Copy, Debug, PartialEq, Eq, Structural)]
pub enum TrackerState {
    /// A task is trying to open the connection.
    Pending,
    /// The connection is live.
    Established,
}

/// A live connection: its identity and the task that serves its stream.
pub struct SwbusConn {
    info: SwbusConnInfo,
    worker: JoinHandle<()>,
}

impl SwbusConn {
    pub fn new(info: SwbusConnInfo, worker: JoinHandle<()>) -> (r: Self)
        ensures
            r.spec_info() == info,
    {
        SwbusConn { info, worker }
    }

    pub closed spec fn spec_info(&self) -> SwbusConnInfo {
        self.info
    }

    pub fn info(&self) -> (r: &SwbusConnInfo)
        ensures
            *r == self.spec_info(),
    {
        &self.info
    }

    /// The task that serves the connection's stream.
    pub fn worker(&self) -> &JoinHandle<()> {
        &self.worker
    }
}

/// What the store keeps for one identity.
pub enum ConnTracker {
    /// The connect task in flight.
    Pending(JoinHandle<()>),
    /// The live connection.
    Established(SwbusConn),
}

impl ConnTracker {
    pub open spec fn spec_state(&self) -> TrackerState {
        match self {
            ConnTracker::Pending(_) => TrackerState::Pending,
            ConnTracker::Established(_) => TrackerState::Established,
        }
    }

    pub fn state(&self) -> (r: TrackerState)
        ensures
            r == self.spec_state(),
    {
        match self {
            ConnTracker::Pending(_) => TrackerState::Pending,
            ConnTracker::Established(_) => TrackerState::Established,
        }
    }
}

/// A connect task to run: the identity to connect, and whether the attempt
/// follows the loss of the connection.
pub struct ConnectRequest {
    pub info: SwbusConnInfo,
    pub reconnect: bool,
}

/// What a connect task does after an attempt.
#[derive(Clone, Copy, Debug, PartialEq, Eq, Structural)]
pub enum RetryStep {
    /// The connection is open: the task ends.
    Finish,
    /// The attempt failed: wait this many milliseconds, then try again.
    RetryAfterMs(u64),
}

impl ConnectRequest {
    /// Milliseconds to wait after a failed attempt.
    pub fn retry_interval_ms(&self) -> (r: u64)
        ensures
            r == retry_interval(self.reconnect),
    {
        if self.reconnect {
            1
        } else {
            1000
        }
    }

    /// The next step of the task after an attempt: done when it connected,
    /// else a wait of the fixed interval and another attempt, for ever.
    pub fn after_attempt(&self, connected: bool) -> (r: RetryStep)
        ensures
            r == (if connected {
                RetryStep::Finish
            } else {
                RetryStep::RetryAfterMs(retry_interval(self.reconnect) as u64)
            }),
    {
        if connected {
            RetryStep::Finish
        } else {
            RetryStep::RetryAfterMs(self.retry_interval_ms())
        }
    }
}

/// The connections of a node, one tracker per identity, and the routes the
/// node owns. Its view is a `StoreView`; each operation's contract says which
/// of the transitions of `model` it performs.
pub struct SwbusConnStore {
    connections: ConnTable,
    my_routes: RouteSet,
}

impl View for SwbusConnStore {
    type V = StoreView;

    closed spec fn view(&self) -> StoreView {
        StoreView { conns: tracked_conns(self.connections), routes: owned_routes(self.my_routes) }
    }
}

impl SwbusConnStore {
    /// A store with no connection and no route.
    pub fn new() -> (r: Self)
        ensures
            r@.conns =~= Map::empty(),
            r@.routes =~= Set::empty(),
    {
        SwbusConnStore { connections: conn_table_new(), my_routes: route_set_new() }
    }

    /// Records a connect task for `conn_info`, in place of whatever was
    /// tracked for it. A connect task that this replaces is cancelled, so
    /// that at most one runs for an identity.
    pub fn start_connect_task(&mut self, conn_info: SwbusConnInfo, task: JoinHandle<()>)
        ensures
            final(self)@ == with_pending(old(self)@, conn_info@),
    {
        let replaced = conn_table_insert(&mut self.connections, conn_info, ConnTracker::Pending(task));
        if let Some(ConnTracker::Pending(stale)) = replaced {
            stale.abort();
        }
    }

    /// Adds a route this node owns; adding one it owns already changes nothing.
    pub fn add_my_route(&mut self, my_route: RouteConfig)
        ensures
            final(self)@ == with_route(old(self)@, my_route@),
            final(self)@.routes.contains(my_route@),
            has_route(final(self)@),
    {
        let ghost added = my_route@;
        route_set_insert(&mut self.my_routes, my_route);
        assert(self@.routes.contains(added));
    }

    /// Whether some route is owned, as `add_peer` needs.
    pub fn has_my_route(&self) -> (r: bool)
        ensures
            r == has_route(self@),
    {
        let first = route_set_first(&self.my_routes);
        if let Some(route) = &first {
            assert(self@.routes.contains(route@));
        }
        first.is_some()
    }

    /// The connect task to run for `peer`: a connection that this node opens
    /// to it, advertising one of the owned routes (which one is the route
    /// set's choice), attempted for the first time.
    pub fn add_peer(&self, peer: &PeerConfig) -> (r: ConnectRequest)
        requires
            has_route(self@),
        ensures
            !r.reconnect,
            exists|route: RouteView| #[trigger] self@.routes.contains(route)
                && r.info@ == client_identity(peer@, route.key),
    {
        let my_route = route_set_first(&self.my_routes).unwrap();
        let info = SwbusConnInfo::new_client(peer.scope, peer.endpoint.clone(), peer.id.clone(), my_route.key.clone());
        assert(self@.routes.contains(my_route@));
        ConnectRequest { info, reconnect: false }
    }

    /// Forgets whatever is tracked for `conn_info` (nothing happens when
    /// nothing is), cancelling a connect task that was in flight. When this
    /// node opened the connection, hands back the connect task that opens it
    /// again; when the peer did, recovery is the peer's business.
    pub fn conn_lost(&mut self, conn_info: SwbusConnInfo) -> (r: Option<ConnectRequest>)
        ensures
            final(self)@ == without(old(self)@, conn_info@),
            r.is_some() == reconnects(conn_info@),
            r matches Some(req) ==> req.info@ == conn_info@ && req.reconnect,
    {
        let removed = conn_table_remove(&mut self.connections, &conn_info);
        if let Some(ConnTracker::Pending(stale)) = removed {
            stale.abort();
        }
        match conn_info.mode() {
            SwbusConnMode::Client => Some(ConnectRequest { info: conn_info, reconnect: true }),
            SwbusConnMode::Server => None,
        }
    }

    /// Records the live connection `conn` under its identity, in place of
    /// whatever was tracked for it.
    pub fn conn_established(&mut self, conn: SwbusConn)
        ensures
            final(self)@ == with_established(old(self)@, conn.spec_info()@),
    {
        let key = conn.info().duplicate();
        conn_table_insert(&mut self.connections, key, ConnTracker::Established(conn));
    }

    /// The state of the tracker of `conn_info`, if one is tracked.
    pub fn tracker_state(&self, conn_info: &SwbusConnInfo) -> (r: Option<TrackerState>)
        ensures
            r.is_some() == self@.conns.contains_key(conn_info@),
            r matches Some(s) ==> s == self@.conns[conn_info@],
    {
        conn_table_get_state(&self.connections, conn_info)
    }

    /// The number of identities tracked.
    pub fn connection_count(&self) -> (r: usize)
        ensures
            r == self@.conns.len(),
    {
        conn_table_len(&self.connections)
    }
}

} // verus!
