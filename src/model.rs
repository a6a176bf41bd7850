//! The store as mathematics: what it holds, how each operation changes it,
//! and the laws that follow.

use crate::conn_info::{ConnInfoView, RouteView, SwbusConnMode};
use crate::conn_store::TrackerState;
use vstd::prelude::*;

verus! {

/// What a store holds: the state of the tracker of each identity, and the
/// routes the node owns.
pub struct StoreView {
    pub conns: Map<ConnInfoView, TrackerState>,
    pub routes: Set<RouteView>,
}

/// Whether some route is owned, so that a peer can be added.
pub open spec fn has_route(s: StoreView) -> bool {
    exists|route: RouteView| #[trigger] s.routes.contains(route)
}

/// Whether this node opens the connection again once it is lost: only when
/// it opened it in the first place.
pub open spec fn reconnects(id: ConnInfoView) -> bool {
    id.mode == SwbusConnMode::Client
}

/// Milliseconds between two failed attempts: short after a loss, long on a
/// first attempt.
pub open spec fn retry_interval(reconnect: bool) -> nat {
    if reconnect {
        1
    } else {
        1000
    }
}

/// The store once `route` is owned.
pub open spec fn with_route(s: StoreView, route: RouteView) -> StoreView {
    StoreView { conns: s.conns, routes: s.routes.insert(route) }
}

/// The store once a connect task for `id` is tracked.
pub open spec fn with_pending(s: StoreView, id: ConnInfoView) -> StoreView {
    StoreView { conns: s.conns.insert(id, TrackerState::Pending), routes: s.routes }
}

/// The store once the connection `id` is live.
pub open spec fn with_established(s: StoreView, id: ConnInfoView) -> StoreView {
    StoreView { conns: s.conns.insert(id, TrackerState::Established), routes: s.routes }
}

/// The store once nothing is tracked for `id`.
pub open spec fn without(s: StoreView, id: ConnInfoView) -> StoreView {
    StoreView { conns: s.conns.remove(id), routes: s.routes }
}

/// The store after the loss of `id` has been handled: the tracker is gone,
/// and a new connect task runs when this node is the one that reconnects.
pub open spec fn after_loss(s: StoreView, id: ConnInfoView) -> StoreView {
    if reconnects(id) {
        with_pending(without(s, id), id)
    } else {
        without(s, id)
    }
}

/// One operation on a store.
pub enum StoreOp {
    AddRoute(RouteView),
    StartTask(ConnInfoView),
    Established(ConnInfoView),
    Lost(ConnInfoView),
}

pub open spec fn apply(s: StoreView, op: StoreOp) -> StoreView {
    match op {
        StoreOp::AddRoute(route) => with_route(s, route),
        StoreOp::StartTask(id) => with_pending(s, id),
        StoreOp::Established(id) => with_established(s, id),
        StoreOp::Lost(id) => after_loss(s, id),
    }
}

/// The store after the operations, in order.
pub open spec fn run(s: StoreView, ops: Seq<StoreOp>) -> StoreView
    decreases ops.len(),
{
    if ops.len() == 0 {
        s
    } else {
        apply(run(s, ops.drop_last()), ops.last())
    }
}

/// Tracking an identity that is already tracked replaces its tracker: the
/// number of tracked identities stays the same.
pub proof fn lemma_tracking_replaces(s: StoreView, id: ConnInfoView)
    requires
        s.conns.dom().finite(),
        s.conns.contains_key(id),
    ensures
        with_pending(s, id).conns.len() == s.conns.len(),
        with_established(s, id).conns.len() == s.conns.len(),
{
    assert(s.conns.insert(id, TrackerState::Pending).dom() =~= s.conns.dom());
    assert(s.conns.insert(id, TrackerState::Established).dom() =~= s.conns.dom());
}

/// After any sequence of operations the store holds at most one tracker per
/// identity, and finitely many trackers in all.
pub proof fn lemma_one_tracker_per_identity(s: StoreView, ops: Seq<StoreOp>, id: ConnInfoView)
    requires
        s.conns.dom().finite(),
    ensures
        run(s, ops).conns.dom().finite(),
        run(s, ops).conns.dom().filter(|k: ConnInfoView| k == id).len() <= 1,
    decreases ops.len(),
{
    if ops.len() > 0 {
        lemma_one_tracker_per_identity(s, ops.drop_last(), id);
    }
    let keys = run(s, ops).conns.dom();
    assert(keys.filter(|k: ConnInfoView| k == id).subset_of(set![id]));
    vstd::set_lib::lemma_len_subset(keys.filter(|k: ConnInfoView| k == id), set![id]);
}

/// Once a connection is live and then lost, a new connect task is tracked
/// for it when this node opened it, and nothing is tracked for it when the
/// peer did.
pub proof fn lemma_reconnect_by_role(s: StoreView, id: ConnInfoView)
    ensures
        reconnects(id) ==> after_loss(with_established(s, id), id).conns.contains_key(id)
            && after_loss(with_established(s, id), id).conns[id] == TrackerState::Pending,
        !reconnects(id) ==> !after_loss(with_established(s, id), id).conns.contains_key(id),
{
}

/// A loss reported for an identity that is not tracked, and that this node
/// does not reconnect, leaves the store as it was.
pub proof fn lemma_loss_of_untracked(s: StoreView, id: ConnInfoView)
    requires
        !s.conns.contains_key(id),
        !reconnects(id),
    ensures
        after_loss(s, id) == s,
{
    assert(s.conns.remove(id) =~= s.conns);
}

/// Adding a route twice is adding it once.
pub proof fn lemma_route_add_idempotent(s: StoreView, route: RouteView)
    ensures
        with_route(with_route(s, route), route) == with_route(s, route),
        with_route(s, route).routes.contains(route),
{
    assert(s.routes.insert(route).insert(route) =~= s.routes.insert(route));
}

/// An attempt after a loss is retried sooner than a first attempt.
pub proof fn lemma_reconnect_retries_sooner()
    ensures
        0 < retry_interval(true) < retry_interval(false),
{
}

} // verus!
