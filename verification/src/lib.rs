//! Verified core of a platform-neutral WebSocket client and server.
//!
//! The library holds the message model, the connection and dispatch
//! decisions of the client, and the per-connection session decisions of the
//! server. The asynchronous runtime that performs socket I/O drives these
//! decisions from the outside.

pub mod client;
pub mod foreign;
pub mod server;
