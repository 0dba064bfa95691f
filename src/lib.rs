//! Outbound gateway of a node agent: the routing of its three calls to the
//! monitoring server and the state manager, the typed failures they end in, and
//! the per-call exchange that the transport layer drives.
pub mod route;
pub mod transport;
pub mod exchange;
pub mod sender;
