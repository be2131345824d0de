use workflow_websocket::server::session::{
    FrameKind, Phase, Session, SessionAction, SessionEvent, DEFAULT_HANDSHAKE_TIMEOUT_SECS, DEFAULT_WITH_HANDSHAKE,
};
use workflow_websocket::server::Error;

#[test]
fn defaults_of_handler() {
    assert_eq!(DEFAULT_HANDSHAKE_TIMEOUT_SECS, 3);
    assert!(!DEFAULT_WITH_HANDSHAKE);
}

#[test]
fn handshake_receives_first_message() {
    let mut s = Session::new(true);
    assert_eq!(s.phase(), Phase::Handshake);
    assert!(matches!(s.on_event(SessionEvent::Received(FrameKind::Text)), SessionAction::Handshake));
    assert_eq!(s.phase(), Phase::Open);
    assert!(matches!(s.on_event(SessionEvent::Received(FrameKind::Text)), SessionAction::Deliver));
}

#[test]
fn silent_peer_times_out() {
    let mut s = Session::new(true);
    assert!(matches!(s.on_event(SessionEvent::TimedOut), SessionAction::Fail(Error::ConnectionTimeout)));
    assert_eq!(s.phase(), Phase::Finished);
}

#[test]
fn broken_handshake_is_malformed() {
    let mut s = Session::new(true);
    assert!(matches!(s.on_event(SessionEvent::ReadFailed), SessionAction::Fail(Error::MalformedHandshake)));
    let mut s = Session::new(true);
    assert!(matches!(s.on_event(SessionEvent::StreamEnded), SessionAction::Fail(Error::MalformedHandshake)));
}

#[test]
fn open_session_relays_messages() {
    let mut s = Session::new(false);
    assert_eq!(s.phase(), Phase::Open);
    assert!(matches!(s.on_event(SessionEvent::Received(FrameKind::Binary)), SessionAction::Deliver));
    assert!(matches!(s.on_event(SessionEvent::Received(FrameKind::Ping)), SessionAction::Ignore));
    assert!(matches!(s.on_event(SessionEvent::Outgoing), SessionAction::SendToPeer));
    assert!(matches!(s.on_event(SessionEvent::TimedOut), SessionAction::Ignore));
    assert!(matches!(s.on_event(SessionEvent::Received(FrameKind::Close)), SessionAction::DeliverThenClose));
    assert_eq!(s.phase(), Phase::Finished);
    assert!(matches!(s.on_event(SessionEvent::Received(FrameKind::Text)), SessionAction::Finish));
}

#[test]
fn read_failure_ends_session() {
    let mut s = Session::new(false);
    assert!(matches!(s.on_event(SessionEvent::ReadFailed), SessionAction::Finish));
    assert_eq!(s.phase(), Phase::Finished);
}

#[test]
fn silent_peer_times_out_without_handshake() {
    let mut s = Session::new(false);
    assert!(s.awaits_first_message());
    assert!(matches!(s.on_event(SessionEvent::TimedOut), SessionAction::Fail(Error::ConnectionTimeout)));
    assert_eq!(s.phase(), Phase::Finished);
}

#[test]
fn timeout_ignored_once_a_message_arrived() {
    let mut s = Session::new(false);
    assert!(matches!(s.on_event(SessionEvent::Received(FrameKind::Ping)), SessionAction::Ignore));
    assert!(!s.awaits_first_message());
    assert!(matches!(s.on_event(SessionEvent::TimedOut), SessionAction::Ignore));
    assert_eq!(s.phase(), Phase::Open);
}
