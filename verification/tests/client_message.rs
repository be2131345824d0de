use workflow_websocket::client::message::{Ctl, DispatchMessage, Message};
use workflow_websocket::client::state::State;
use workflow_websocket::client::Error;

#[test]
fn is_ctl_only_for_control_messages() {
    assert!(!Message::Text("a".to_string()).is_ctl());
    assert!(!Message::Binary(vec![1, 2]).is_ctl());
    assert!(Message::Ctl(Ctl::Open).is_ctl());
    assert!(Message::Ctl(Ctl::Custom(7)).is_ctl());
}

#[test]
fn bytes_round_trip_through_message() {
    let message = Message::from(vec![0u8, 255, 7]);
    assert_eq!(message, Message::Binary(vec![0, 255, 7]));
    assert_eq!(message.as_bytes(), &[0u8, 255, 7][..]);
    assert_eq!(message.into_bytes(), vec![0u8, 255, 7]);
}

#[test]
fn text_message_carries_utf8_bytes() {
    let message = Message::from("h\u{e9}llo \u{1f600}".to_string());
    assert_eq!(message.as_bytes(), "h\u{e9}llo \u{1f600}".as_bytes());
    assert_eq!(message.into_bytes(), vec![104, 195, 169, 108, 108, 111, 32, 240, 159, 152, 128]);
}

#[test]
fn str_converts_to_text_message() {
    assert_eq!(Message::from("ping"), Message::Text("ping".to_string()));
    assert_eq!(Message::from(""), Message::Text(String::new()));
}

#[test]
fn dispatch_message_new_posts() {
    let d = DispatchMessage::new(Message::Text("x".to_string()));
    assert!(matches!(d, DispatchMessage::Post(Message::Text(ref t)) if t == "x"));
    assert!(!d.is_ctl());
    assert!(DispatchMessage::DispatcherShutdown.is_ctl());
}

#[test]
fn dispatch_message_with_ack_delivers_outcome() {
    let (d, receiver) = DispatchMessage::new_with_ack(Message::Binary(vec![9]));
    assert!(!d.is_ctl());
    let ack = match d {
        DispatchMessage::WithAck(Message::Binary(data), ack) => {
            assert_eq!(data, vec![9]);
            ack
        }
        _ => panic!("expected an acknowledged request"),
    };
    let runtime = tokio::runtime::Builder::new_current_thread().build().unwrap();
    runtime.block_on(async move {
        ack.send(Err(Error::NotConnected)).await.unwrap();
        assert!(matches!(receiver.recv().await, Ok(Err(Error::NotConnected))));
    });
}

#[test]
fn ready_state_numbers_map_to_states() {
    assert_eq!(State::try_from(0u16).unwrap(), State::Connecting);
    assert_eq!(State::try_from(1u16).unwrap(), State::Open);
    assert_eq!(State::try_from(2u16).unwrap(), State::Closing);
    assert_eq!(State::try_from(3u16).unwrap(), State::Closed);
}

#[test]
fn unknown_ready_state_is_invalid() {
    assert!(matches!(State::try_from(4u16), Err(Error::InvalidState(4))));
    assert!(matches!(State::try_from(65535u16), Err(Error::InvalidState(65535))));
}
