//! Connection store of a service-bus multiplexer: the registry of peer
//! connections of a node, the routes the node owns, and the policy that
//! decides when a connection is attempted again.

mod external;

pub mod conn_info;
pub mod conn_store;
pub mod model;

pub use conn_info::{ConnInfoView, PeerConfig, RouteConfig, RouteScope, RouteView, SwbusConnInfo, SwbusConnMode};
pub use conn_store::{ConnTracker, ConnectRequest, RetryStep, SwbusConn, SwbusConnStore, TrackerState};
