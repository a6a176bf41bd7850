//! The outside items the store relies on: dashmap's concurrent map and set,
//! which hold the registry and the owned routes, and tokio's task handle.

use crate::conn_info::{ConnInfoView, RouteConfig, RouteView, SwbusConnInfo};
use crate::conn_store::{ConnTracker, TrackerState};
use dashmap::{DashMap, DashSet};
use tokio::task::{JoinError, JoinHandle};
use vstd::prelude::*;

verus! {

/// The registry: a tracker for each connection identity.
pub type ConnTable = DashMap<SwbusConnInfo, ConnTracker>;

/// The routes this node owns.
pub type RouteSet = DashSet<RouteConfig>;

#[verifier::external_type_specification]
#[verifier::external_body]
#[verifier::reject_recursive_types(K)]
#[verifier::reject_recursive_types(V)]
#[verifier::reject_recursive_types(S)]
pub struct ExDashMap<K, V, S>(DashMap<K, V, S>);

#[verifier::external_type_specification]
#[verifier::external_body]
#[verifier::reject_recursive_types(K)]
#[verifier::reject_recursive_types(S)]
pub struct ExDashSet<K, S>(DashSet<K, S>);

#[verifier::external_type_specification]
#[verifier::external_body]
#[verifier::reject_recursive_types(T)]
pub struct ExJoinHandle<T>(JoinHandle<T>);

#[verifier::external_type_specification]
#[verifier::external_body]
pub struct ExJoinError(JoinError);

/// Relies on tokio's `JoinHandle::abort`: asks the runtime to cancel the task;
/// it neither blocks nor panics.
pub assume_specification<T>[ JoinHandle::<T>::abort ](self_: &JoinHandle<T>);

/// What the connection registry holds: the state of the tracker kept for
/// each identity.
pub uninterp spec fn tracked_conns(m: ConnTable) -> Map<ConnInfoView, TrackerState>;

/// What the owned-route set holds.
pub uninterp spec fn owned_routes(s: RouteSet) -> Set<RouteView>;

/// Relies on `DashMap::new`: an empty map.
#[verifier::external_body]
pub(crate) fn conn_table_new() -> (r: ConnTable)
    ensures
        tracked_conns(r) =~= Map::empty(),
{
    DashMap::new()
}

/// Relies on `DashMap::insert`: the key now maps to the value, and the value
/// that the key held before, if any, is handed back. The key's `Eq` and `Hash`
/// are derived, so keys are told apart by their fields.
#[verifier::external_body]
pub(crate) fn conn_table_insert(m: &mut ConnTable, k: SwbusConnInfo, v: ConnTracker) -> (r: Option<ConnTracker>)
    ensures
        tracked_conns(*final(m)) == tracked_conns(*old(m)).insert(k@, v.spec_state()),
        r.is_some() == tracked_conns(*old(m)).contains_key(k@),
        r matches Some(t) ==> t.spec_state() == tracked_conns(*old(m))[k@],
{
    m.insert(k, v)
}

/// Relies on `DashMap::remove`: the key no longer maps to anything, and its
/// value, if it had one, is handed back.
#[verifier::external_body]
pub(crate) fn conn_table_remove(m: &mut ConnTable, k: &SwbusConnInfo) -> (r: Option<ConnTracker>)
    ensures
        tracked_conns(*final(m)) == tracked_conns(*old(m)).remove(k@),
        r.is_some() == tracked_conns(*old(m)).contains_key(k@),
        r matches Some(t) ==> t.spec_state() == tracked_conns(*old(m))[k@],
{
    m.remove(k).map(|entry| entry.1)
}

/// Relies on `DashMap::get`: the value the key maps to, if any.
#[verifier::external_body]
pub(crate) fn conn_table_get_state(m: &ConnTable, k: &SwbusConnInfo) -> (r: Option<TrackerState>)
    ensures
        r.is_some() == tracked_conns(*m).contains_key(k@),
        r matches Some(s) ==> s == tracked_conns(*m)[k@],
{
    m.get(k).map(|entry| entry.state())
}

/// Relies on `DashMap::len`: the number of entries.
#[verifier::external_body]
pub(crate) fn conn_table_len(m: &ConnTable) -> (r: usize)
    ensures
        r == tracked_conns(*m).len(),
{
    m.len()
}

/// Relies on `DashSet::new`: an empty set.
#[verifier::external_body]
pub(crate) fn route_set_new() -> (r: RouteSet)
    ensures
        owned_routes(r) =~= Set::empty(),
{
    DashSet::new()
}

/// Relies on `DashSet::insert`: the set now holds the value (once: a value
/// equal to one already there leaves it as it was); true when it was absent.
#[verifier::external_body]
pub(crate) fn route_set_insert(s: &mut RouteSet, route: RouteConfig) -> (r: bool)
    ensures
        owned_routes(*final(s)) == owned_routes(*old(s)).insert(route@),
        r == !owned_routes(*old(s)).contains(route@),
{
    s.insert(route)
}

/// Relies on `DashSet::iter`: its first item, copied; there is one exactly
/// when the set is not empty. Which member comes first is the set's own
/// business.
#[verifier::external_body]
pub(crate) fn route_set_first(s: &RouteSet) -> (r: Option<RouteConfig>)
    ensures
        r.is_none() == (owned_routes(*s) == Set::<RouteView>::empty()),
        r matches Some(route) ==> owned_routes(*s).contains(route@),
{
    s.iter().next().map(|route| route.key().clone())
}

} // verus!
