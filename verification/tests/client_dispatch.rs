use workflow_websocket::client::browser::{close_notice, disconnect_notice, is_open, message_from_event_data, EventData};
use workflow_websocket::client::dispatch::{carries_ctl, frame_of, opening_notice, relay, route, route_when, Frame, Incoming, Outgoing, Relay};
use workflow_websocket::client::message::{Ctl, DispatchMessage, Message};
use workflow_websocket::client::state::{CLOSED, CONNECTING, OPEN};
use workflow_websocket::client::Error;

#[test]
fn frames_carry_data_messages_only() {
    assert!(matches!(frame_of(Message::Text("t".to_string())), Some(Frame::Text(ref t)) if t == "t"));
    assert!(matches!(frame_of(Message::Binary(vec![5])), Some(Frame::Binary(ref v)) if v == &vec![5u8]));
    assert!(frame_of(Message::Ctl(Ctl::Shutdown)).is_none());
}

#[test]
fn control_payload_detected() {
    assert!(carries_ctl(&DispatchMessage::Post(Message::Ctl(Ctl::Open))));
    assert!(!carries_ctl(&DispatchMessage::Post(Message::Text("a".to_string()))));
    assert!(!carries_ctl(&DispatchMessage::DispatcherShutdown));
}

#[test]
fn route_sends_posted_data() {
    match route(DispatchMessage::new(Message::Binary(vec![1, 2, 3]))) {
        Outgoing::Send(Frame::Binary(v)) => assert_eq!(v, vec![1, 2, 3]),
        _ => panic!("expected a binary send"),
    }
    assert!(matches!(route(DispatchMessage::DispatcherShutdown), Outgoing::Shutdown));
}

#[test]
fn route_acknowledges_when_asked() {
    let (d, _future) = DispatchMessage::new_with_ack(Message::Text("hi".to_string()));
    match route(d) {
        Outgoing::SendWithAck(Frame::Text(t), _) => assert_eq!(t, "hi"),
        _ => panic!("expected an acknowledged text send"),
    }
}

#[test]
fn browser_dispatcher_drops_requests_while_not_open() {
    let posted = DispatchMessage::new(Message::Text("x".to_string()));
    assert!(matches!(route_when(CONNECTING, posted), Outgoing::Skip));
    let posted = DispatchMessage::new(Message::Text("x".to_string()));
    assert!(matches!(route_when(OPEN, posted), Outgoing::Send(Frame::Text(_))));
    assert!(matches!(route_when(CLOSED, DispatchMessage::DispatcherShutdown), Outgoing::Shutdown));
    assert!(matches!(route_when(CLOSED, DispatchMessage::Post(Message::Ctl(Ctl::Open))), Outgoing::Skip));
}

#[test]
fn relay_delivers_data_unchanged() {
    match relay(Incoming::Binary(vec![4, 2])) {
        Relay::Deliver { message: Message::Binary(v), then_stop: false, failure: Error::ReceiveChannel } => {
            assert_eq!(v, vec![4, 2])
        }
        _ => panic!("expected delivery of binary data"),
    }
    match relay(Incoming::Text("t".to_string())) {
        Relay::Deliver { message: Message::Text(t), then_stop: false, failure: Error::ReceiveChannel } => {
            assert_eq!(t, "t")
        }
        _ => panic!("expected delivery of text"),
    }
}

#[test]
fn relay_announces_end_of_connection() {
    for event in [Incoming::Close, Incoming::Failed, Incoming::Ended] {
        assert!(matches!(
            relay(event),
            Relay::Deliver { message: Message::Ctl(Ctl::Closed), then_stop: true, failure: Error::DispatchChannelSend }
        ));
    }
}

#[test]
fn relay_ignores_ping_pong_and_frames() {
    for event in [Incoming::Ping, Incoming::Pong, Incoming::Frame] {
        assert!(matches!(relay(event), Relay::Ignore));
    }
}

#[test]
fn opening_notice_announces_open() {
    assert!(matches!(
        opening_notice(),
        Relay::Deliver { message: Message::Ctl(Ctl::Open), then_stop: false, failure: Error::DispatchChannelSend }
    ));
}

#[test]
fn event_data_becomes_message() {
    assert_eq!(message_from_event_data(EventData::ArrayBuffer(vec![1])).unwrap(), Message::Binary(vec![1]));
    assert_eq!(
        message_from_event_data(EventData::Text(Some("s".to_string()))).unwrap(),
        Message::Text("s".to_string())
    );
}

#[test]
fn unreadable_event_data_is_an_error() {
    assert!(matches!(message_from_event_data(EventData::Text(None)), Err(Error::DataEncoding)));
    assert!(matches!(message_from_event_data(EventData::Other), Err(Error::DataType)));
}

#[test]
fn close_notice_only_after_open() {
    assert_eq!(close_notice(true), Some(Message::Ctl(Ctl::Closed)));
    assert_eq!(close_notice(false), None);
}

#[test]
fn disconnect_notice_is_shutdown() {
    assert_eq!(disconnect_notice(), Message::Ctl(Ctl::Shutdown));
}

#[test]
fn browser_socket_open_only_in_open_state() {
    assert!(is_open(Some(OPEN)));
    assert!(!is_open(Some(CLOSED)));
    assert!(!is_open(None));
}
