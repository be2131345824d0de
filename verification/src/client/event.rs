use vstd::prelude::*;

verus! {

/// Lifecycle events of a socket.
#[derive(Clone, Debug, PartialEq, Eq)]
pub enum Event {
    Open,
    Closed(CloseEvent),
}

/// What the peer reported when the connection closed.
#[derive(Clone, Debug, PartialEq, Eq)]
pub struct CloseEvent {
    pub code: u16,
    pub reason: String,
    pub was_clean: bool,
}

} // verus!
