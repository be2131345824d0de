use vstd::prelude::*;
use vstd::std_specs::convert::TryFromSpec;
use super::error::Error;

verus! {

/// `readyState` of a socket that has not yet established its connection.
pub const CONNECTING: u16 = 0;

/// `readyState` of a socket whose connection is established.
pub const OPEN: u16 = 1;

/// `readyState` of a socket that is going through the closing handshake.
pub const CLOSING: u16 = 2;

/// `readyState` of a socket whose connection is closed or could not be opened.
pub const CLOSED: u16 = 3;

/// The ready state of a socket.
#[derive(Debug, Clone, Copy, PartialEq, Eq, Structural)]
pub enum State {
    Connecting,
    Open,
    Closing,
    Closed,
}

impl State {
    /// The `readyState` number that stands for this state.
    pub open spec fn ready_state(self) -> u16 {
        match self {
            State::Connecting => CONNECTING,
            State::Open => OPEN,
            State::Closing => CLOSING,
            State::Closed => CLOSED,
        }
    }

    /// The state a `readyState` number stands for, if any.
    pub open spec fn of_ready_state(code: u16) -> Option<State> {
        if code == CONNECTING {
            Some(State::Connecting)
        } else if code == OPEN {
            Some(State::Open)
        } else if code == CLOSING {
            Some(State::Closing)
        } else if code == CLOSED {
            Some(State::Closed)
        } else {
            None
        }
    }
}

impl TryFrom<u16> for State {
    type Error = Error;

    fn try_from(state: u16) -> (r: Result<Self, Error>) {
        if state == CONNECTING {
            Ok(State::Connecting)
        } else if state == OPEN {
            Ok(State::Open)
        } else if state == CLOSING {
            Ok(State::Closing)
        } else if state == CLOSED {
            Ok(State::Closed)
        } else {
            Err(Error::InvalidState(state))
        }
    }
}

impl vstd::std_specs::convert::TryFromSpecImpl<u16> for State {
    open spec fn obeys_try_from_spec() -> bool {
        true
    }

    open spec fn try_from_spec(v: u16) -> Result<Self, Error> {
        match State::of_ready_state(v) {
            Some(s) => Ok(s),
            None => Err(Error::InvalidState(v)),
        }
    }
}

/// Every state is read back from its own `readyState` number.
pub proof fn lemma_ready_state_round_trip(s: State)
    ensures
        <State as TryFromSpec<u16>>::obeys_try_from_spec(),
        <State as TryFromSpec<u16>>::try_from_spec(s.ready_state()) == Ok::<State, Error>(s),
{
}

/// A number is refused with `InvalidState` carrying it exactly when it
/// stands for no state, that is when it is above `CLOSED`.
pub proof fn lemma_invalid_ready_state(code: u16)
    ensures
        (code > CLOSED) <==> (<State as TryFromSpec<u16>>::try_from_spec(code) matches Err(Error::InvalidState(c)) && c == code),
        code <= CLOSED ==> (<State as TryFromSpec<u16>>::try_from_spec(code) matches Ok(s) && s.ready_state() == code),
{
}

} // verus!
