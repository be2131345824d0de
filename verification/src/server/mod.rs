//! Server side: the errors that end a connection and the decisions of one
//! connection between the peer and the handler.

pub mod error;
pub mod session;

pub use error::Error;
