//! Client side: messages, events, ready states, errors, settings and the
//! decisions that drive a client connection.

pub mod browser;
pub mod connection;
pub mod dispatch;
pub mod error;
pub mod event;
pub mod message;
pub mod result;
pub mod settings;
pub mod state;

pub use error::Error;
pub use message::{Ctl, DispatchMessage, Message};
pub use result::Result;
pub use settings::Settings;
