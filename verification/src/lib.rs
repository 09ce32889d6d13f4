//! The decisions of a local proxy between the programs of a machine and its host: how traffic is
//! redirected to the proxy, how the proxy listens, how it handles a connection, and how the time of
//! all this is reported.

pub mod connection_flow_laws;
pub mod connection_handler;
pub mod connection_laws;
pub mod connection_model;
pub mod connection_step_laws;
pub mod iptable_laws;
pub mod iptable_redirect;
pub mod listener_laws;
pub mod operation_laws;
pub mod proxy_connection;
pub mod proxy_listener;
pub mod span;
pub mod span_laws;
pub mod text;
