use workflow_websocket::client::connection::{send_outcome, CloseAction, Connection, LinkAction, LinkEvent, RECONNECT_DELAY_MS};
use workflow_websocket::client::message::{DispatchMessage, Message};
use workflow_websocket::client::settings::Settings;
use workflow_websocket::client::Error;

#[test]
fn new_connection_is_closed_and_reconnects() {
    let c = Connection::new("ws://localhost:9000");
    assert_eq!(c.url(), "ws://localhost:9000");
    assert!(!c.is_open());
    assert!(c.keeps_reconnecting());
}

#[test]
fn set_url_changes_url() {
    let mut c = Connection::new("ws://a");
    c.set_url("ws://b");
    assert_eq!(c.url(), "ws://b");
}

#[test]
fn post_and_send_require_open_socket() {
    let c = Connection::new("ws://a");
    assert!(matches!(c.post(Message::Text("x".to_string())), Err(Error::NotConnected)));
    assert!(matches!(c.send(Message::Text("x".to_string())), Err(Error::NotConnected)));
}

#[test]
fn connected_socket_accepts_post_and_send() {
    let mut c = Connection::new("ws://a");
    let mut task = c.connect().unwrap();
    assert!(matches!(c.on_event(&mut task, LinkEvent::Connected), LinkAction::StartDispatcher { signal_connected: true }));
    assert!(c.is_open());
    assert!(matches!(c.post(Message::Binary(vec![1])), Ok(DispatchMessage::Post(Message::Binary(ref v))) if v == &vec![1u8]));
    assert!(matches!(c.send(Message::Binary(vec![2])), Ok((DispatchMessage::WithAck(Message::Binary(ref v), _), _)) if v == &vec![2u8]));
}

#[test]
fn connect_refused_while_socket_held() {
    let mut c = Connection::new("ws://a");
    let mut task = c.connect().unwrap();
    c.on_event(&mut task, LinkEvent::Connected);
    assert!(matches!(c.connect(), Err(Error::AlreadyConnected)));
    assert!(c.is_open());
}

#[test]
fn caller_is_woken_once_across_reconnects() {
    let mut c = Connection::new("ws://a");
    let mut task = c.connect().unwrap();
    assert!(matches!(c.on_event(&mut task, LinkEvent::Connected), LinkAction::StartDispatcher { signal_connected: true }));
    assert!(matches!(c.on_event(&mut task, LinkEvent::DispatcherExited), LinkAction::Reconnect));
    assert!(!c.is_open());
    assert!(matches!(c.on_event(&mut task, LinkEvent::Connected), LinkAction::StartDispatcher { signal_connected: false }));
}

#[test]
fn failed_attempt_waits_then_retries() {
    let mut c = Connection::new("ws://a");
    let mut task = c.connect().unwrap();
    assert!(matches!(c.on_event(&mut task, LinkEvent::ConnectFailed), LinkAction::Sleep(RECONNECT_DELAY_MS)));
    assert_eq!(RECONNECT_DELAY_MS, 1000);
    assert!(matches!(c.on_event(&mut task, LinkEvent::DelayElapsed), LinkAction::Reconnect));
}

#[test]
fn disconnect_stops_reconnecting() {
    let mut c = Connection::new("ws://a");
    let mut task = c.connect().unwrap();
    c.on_event(&mut task, LinkEvent::Connected);
    assert!(matches!(c.disconnect(), CloseAction::ShutdownDispatcher));
    assert!(!c.keeps_reconnecting());
    assert!(matches!(c.on_event(&mut task, LinkEvent::DispatcherExited), LinkAction::Stop));
    assert!(matches!(c.on_event(&mut task, LinkEvent::DelayElapsed), LinkAction::Stop));
}

#[test]
fn close_without_socket_is_reported() {
    let mut c = Connection::new("ws://a");
    assert!(matches!(c.close(), CloseAction::NotInitialized));
    assert!(c.keeps_reconnecting());
}

#[test]
fn close_keeps_reconnecting() {
    let mut c = Connection::new("ws://a");
    let mut task = c.connect().unwrap();
    c.on_event(&mut task, LinkEvent::Connected);
    assert!(matches!(c.close(), CloseAction::ShutdownDispatcher));
    assert!(c.connect().is_ok());
    assert!(matches!(c.on_event(&mut task, LinkEvent::DispatcherExited), LinkAction::Reconnect));
}

#[test]
fn settings_default_is_unbounded() {
    let settings = Settings::default();
    assert_eq!(settings.receiver_channel_bounds, 0);
    assert_eq!(settings.sender_channel_bounds, 0);
    assert_eq!(settings.receiver_channel_capacity(), None);
    assert_eq!(settings.sender_channel_capacity(), None);
}

#[test]
fn settings_bounds_give_capacities() {
    let settings = Settings { receiver_channel_bounds: 16, sender_channel_bounds: 0 };
    assert_eq!(settings.receiver_channel_capacity(), Some(16));
    assert_eq!(settings.sender_channel_capacity(), None);
}

#[test]
fn each_connect_wakes_its_own_caller() {
    let mut c = Connection::new("ws://a");
    let mut first = c.connect().unwrap();
    let mut second = c.connect().unwrap();
    assert!(matches!(c.on_event(&mut first, LinkEvent::Connected), LinkAction::StartDispatcher { signal_connected: true }));
    assert!(matches!(c.on_event(&mut first, LinkEvent::DispatcherExited), LinkAction::Reconnect));
    assert!(matches!(c.on_event(&mut second, LinkEvent::Connected), LinkAction::StartDispatcher { signal_connected: true }));
}

#[test]
fn send_outcome_reports_acknowledgement() {
    assert!(send_outcome(Some(Ok(()))).is_ok());
    assert!(matches!(send_outcome(Some(Err(Error::ReceiveChannel))), Err(Error::ReceiveChannel)));
    assert!(matches!(send_outcome(None), Err(Error::DispatchChannelAck)));
}

#[test]
fn send_acknowledgement_reaches_returned_receiver() {
    let mut c = Connection::new("ws://a");
    let mut task = c.connect().unwrap();
    c.on_event(&mut task, LinkEvent::Connected);
    let (d, receiver) = c.send(Message::Text("m".to_string())).unwrap();
    let ack = match d {
        DispatchMessage::WithAck(_, ack) => ack,
        _ => panic!("expected an acknowledged request"),
    };
    let runtime = tokio::runtime::Builder::new_current_thread().build().unwrap();
    runtime.block_on(async move {
        ack.send(Err(Error::ReceiveChannel)).await.unwrap();
        let received = receiver.recv().await.ok();
        assert!(matches!(send_outcome(received), Err(Error::ReceiveChannel)));
    });
}
