use swbus_core::{
    ConnectRequest, PeerConfig, RetryStep, RouteConfig, RouteScope, SwbusConn, SwbusConnInfo, SwbusConnMode,
    SwbusConnStore, TrackerState,
};
use tokio::runtime::{Builder, Runtime};
use tokio::task::JoinHandle;

fn runtime() -> Runtime {
    Builder::new_current_thread().build().unwrap()
}

fn idle_task(rt: &Runtime) -> JoinHandle<()> {
    rt.spawn(async {})
}

fn route(key: &str, scope: RouteScope) -> RouteConfig {
    RouteConfig { key: key.to_string(), scope }
}

fn peer(scope: RouteScope, endpoint: &str, id: &str) -> PeerConfig {
    PeerConfig { scope, endpoint: endpoint.to_string(), id: id.to_string() }
}

fn client(scope: RouteScope, endpoint: &str, remote: &str, local: &str) -> SwbusConnInfo {
    SwbusConnInfo::new_client(scope, endpoint.to_string(), remote.to_string(), local.to_string())
}

fn server(scope: RouteScope, endpoint: &str, remote: &str, local: &str) -> SwbusConnInfo {
    SwbusConnInfo::new_server(scope, endpoint.to_string(), remote.to_string(), local.to_string())
}

#[test]
fn test_add_peer() {
    let rt = runtime();
    let mut conn_store = SwbusConnStore::new();
    let peer_config = peer(RouteScope::ScopeLocal, "127.0.0.1:8080", "region-a.cluster-a.10.0.0.2-dpu0");
    let route_config = route("region-a.cluster-a.10.0.0.1-dpu0", RouteScope::ScopeCluster);
    conn_store.add_my_route(route_config);

    let request = conn_store.add_peer(&peer_config);
    assert_eq!(request.info.id(), "swbs-to://127.0.0.1:8080");
    let info = request.info.duplicate();
    conn_store.start_connect_task(request.info, idle_task(&rt));
    assert!(conn_store.tracker_state(&info).is_some());
    assert_eq!(info.id(), "swbs-to://127.0.0.1:8080");
}

#[test]
fn add_peer_builds_client_identity_then_connection_goes_live() {
    let rt = runtime();
    let mut store = SwbusConnStore::new();
    store.add_my_route(route("A", RouteScope::ScopeCluster));
    let request = store.add_peer(&peer(RouteScope::ScopeLocal, "127.0.0.1:8080", "B"));
    let expected = client(RouteScope::ScopeLocal, "127.0.0.1:8080", "B", "A");
    assert_eq!(request.info, expected);
    assert_eq!(request.info.mode(), SwbusConnMode::Client);
    assert_eq!(request.info.local_service_path(), "A");
    assert_eq!(request.info.remote_service_path(), "B");
    assert_eq!(request.info.remote_addr(), "127.0.0.1:8080");
    assert_eq!(request.info.scope(), RouteScope::ScopeLocal);
    assert!(!request.reconnect);

    store.start_connect_task(request.info, idle_task(&rt));
    assert_eq!(store.tracker_state(&expected), Some(TrackerState::Pending));
    assert_eq!(store.connection_count(), 1);

    store.conn_established(SwbusConn::new(expected.duplicate(), idle_task(&rt)));
    assert_eq!(store.tracker_state(&expected), Some(TrackerState::Established));
    assert_eq!(store.connection_count(), 1);
}

#[test]
fn loss_of_unknown_peer_initiated_connection_changes_nothing() {
    let mut store = SwbusConnStore::new();
    let info = server(RouteScope::ScopeLocal, "10.0.0.9:8080", "B", "A");
    assert!(store.conn_lost(info.duplicate()).is_none());
    assert_eq!(store.tracker_state(&info), None);
    assert_eq!(store.connection_count(), 0);
}

#[test]
fn loss_of_unknown_self_initiated_connection_asks_for_reconnect() {
    let mut store = SwbusConnStore::new();
    let info = client(RouteScope::ScopeLocal, "10.0.0.9:8080", "B", "A");
    let request = store.conn_lost(info.duplicate()).unwrap();
    assert_eq!(request.info, info);
    assert!(request.reconnect);
    assert_eq!(store.connection_count(), 0);
}

#[test]
fn self_initiated_connection_is_reopened_after_loss() {
    let rt = runtime();
    let mut store = SwbusConnStore::new();
    let info = client(RouteScope::ScopeLocal, "127.0.0.1:8080", "B", "A");
    store.conn_established(SwbusConn::new(info.duplicate(), idle_task(&rt)));
    let request: ConnectRequest = store.conn_lost(info.duplicate()).unwrap();
    assert_eq!(store.tracker_state(&info), None);
    assert!(request.reconnect);
    assert_eq!(request.retry_interval_ms(), 1);
    store.start_connect_task(request.info, idle_task(&rt));
    assert_eq!(store.tracker_state(&info), Some(TrackerState::Pending));
}

#[test]
fn peer_initiated_connection_is_not_reopened_after_loss() {
    let rt = runtime();
    let mut store = SwbusConnStore::new();
    let info = server(RouteScope::ScopeLocal, "127.0.0.1:8080", "B", "A");
    store.conn_established(SwbusConn::new(info.duplicate(), idle_task(&rt)));
    assert_eq!(store.tracker_state(&info), Some(TrackerState::Established));
    assert!(store.conn_lost(info.duplicate()).is_none());
    assert_eq!(store.tracker_state(&info), None);
    assert_eq!(store.connection_count(), 0);
}

#[test]
fn retry_cadence_depends_on_loss() {
    let fresh = ConnectRequest { info: client(RouteScope::ScopeLocal, "127.0.0.1:8080", "B", "A"), reconnect: false };
    let again = ConnectRequest { info: client(RouteScope::ScopeLocal, "127.0.0.1:8080", "B", "A"), reconnect: true };
    assert_eq!(fresh.retry_interval_ms(), 1000);
    assert_eq!(again.retry_interval_ms(), 1);
    assert!(again.retry_interval_ms() < fresh.retry_interval_ms());
    assert_eq!(fresh.after_attempt(false), RetryStep::RetryAfterMs(1000));
    assert_eq!(again.after_attempt(false), RetryStep::RetryAfterMs(1));
    assert_eq!(fresh.after_attempt(true), RetryStep::Finish);
    assert_eq!(again.after_attempt(true), RetryStep::Finish);
}

#[test]
fn adding_a_route_twice_keeps_it_once() {
    let mut store = SwbusConnStore::new();
    store.add_my_route(route("A", RouteScope::ScopeCluster));
    store.add_my_route(route("A", RouteScope::ScopeCluster));
    assert!(store.has_my_route());
    let request = store.add_peer(&peer(RouteScope::ScopeLocal, "127.0.0.1:8080", "B"));
    assert_eq!(request.info.local_service_path(), "A");
}

#[test]
fn store_without_route_cannot_add_peer() {
    let store = SwbusConnStore::new();
    assert!(!store.has_my_route());
}

#[test]
fn add_peer_advertises_one_of_the_owned_routes() {
    let mut store = SwbusConnStore::new();
    store.add_my_route(route("A", RouteScope::ScopeCluster));
    store.add_my_route(route("C", RouteScope::ScopeRegion));
    let request = store.add_peer(&peer(RouteScope::ScopeLocal, "127.0.0.1:8080", "B"));
    let local = request.info.local_service_path().clone();
    assert!(local == "A" || local == "C");
}

#[test]
fn one_tracker_per_identity() {
    let rt = runtime();
    let mut store = SwbusConnStore::new();
    let info = client(RouteScope::ScopeLocal, "127.0.0.1:8080", "B", "A");
    let other = client(RouteScope::ScopeLocal, "127.0.0.1:8081", "B", "A");
    store.start_connect_task(info.duplicate(), idle_task(&rt));
    store.start_connect_task(info.duplicate(), idle_task(&rt));
    assert_eq!(store.connection_count(), 1);
    store.conn_established(SwbusConn::new(info.duplicate(), idle_task(&rt)));
    assert_eq!(store.connection_count(), 1);
    store.start_connect_task(other.duplicate(), idle_task(&rt));
    assert_eq!(store.connection_count(), 2);
    assert_eq!(store.tracker_state(&info), Some(TrackerState::Established));
    assert_eq!(store.tracker_state(&other), Some(TrackerState::Pending));
}

#[test]
fn replaced_connect_task_is_cancelled() {
    let rt = runtime();
    let mut store = SwbusConnStore::new();
    let info = client(RouteScope::ScopeLocal, "127.0.0.1:8080", "B", "A");
    let (tx, rx) = std::sync::mpsc::channel::<()>();
    let stale = rt.spawn(async move {
        std::future::pending::<()>().await;
        drop(tx);
    });
    store.start_connect_task(info.duplicate(), stale);
    store.start_connect_task(info.duplicate(), idle_task(&rt));
    rt.block_on(async { tokio::task::yield_now().await });
    assert!(rx.recv().is_err());
}

#[test]
fn identity_text_names_direction_and_endpoint() {
    assert_eq!(client(RouteScope::ScopeLocal, "127.0.0.1:8080", "B", "A").id(), "swbs-to://127.0.0.1:8080");
    assert_eq!(server(RouteScope::ScopeLocal, "10.0.0.2:9000", "B", "A").id(), "swbs-from://10.0.0.2:9000");
}

#[test]
fn identities_differ_by_mode() {
    let a = client(RouteScope::ScopeLocal, "127.0.0.1:8080", "B", "A");
    let b = server(RouteScope::ScopeLocal, "127.0.0.1:8080", "B", "A");
    assert_ne!(a, b);
    assert_eq!(a.duplicate(), a);
}
