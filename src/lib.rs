//! Supervision of an external worker process: locating and launching it, the startup
//! handshake, liveness monitoring, the bounded restart policy, and request/response
//! correlation over its standard streams. Every decision is a verified function of
//! plain values; the caller performs the process and network I/O.

pub mod bridge;
pub mod handshake;
pub mod heartbeat;
pub mod locator;
pub mod message;
pub mod protocol;
pub mod rpc;
pub mod supervisor;
pub mod types;
pub mod workspace;
