use vstd::prelude::*;
use vstd::pervasive::unreached;
use vstd::utf8::encode_utf8;
use workflow_core::channel::Sender as AckSender;
use super::error::Error;
use super::message::{Ack, Ctl, DispatchMessage, Message};
use super::state::OPEN;

verus! {

/// A data frame to be written to the socket.
pub enum Frame {
    Text(String),
    Binary(Vec<u8>),
}

impl Frame {
    /// The bytes the frame carries on the wire.
    pub open spec fn payload(self) -> Seq<u8> {
        match self {
            Frame::Text(s) => encode_utf8(s@),
            Frame::Binary(v) => v@,
        }
    }
}

/// The frame that carries a data message; control messages have none.
pub open spec fn frame_of_spec(message: Message) -> Option<Frame> {
    match message {
        Message::Text(s) => Some(Frame::Text(s)),
        Message::Binary(v) => Some(Frame::Binary(v)),
        Message::Ctl(_) => None,
    }
}

/// The frame that carries a data message; control messages have none and
/// are not written to the socket.
pub fn frame_of(message: Message) -> (r: Option<Frame>)
    ensures
        r == frame_of_spec(message),
{
    match message {
        Message::Text(text) => Some(Frame::Text(text)),
        Message::Binary(data) => Some(Frame::Binary(data)),
        Message::Ctl(_) => None,
    }
}

/// Whether a request asks the dispatcher to write a control message, which
/// has no frame: the dispatcher treats such a request as a broken invariant.
pub open spec fn carries_ctl_spec(d: DispatchMessage) -> bool {
    match d {
        DispatchMessage::Post(m) => m is Ctl,
        DispatchMessage::WithAck(m, _) => m is Ctl,
        DispatchMessage::DispatcherShutdown => false,
    }
}

/// Whether a request asks the dispatcher to write a control message.
pub fn carries_ctl(d: &DispatchMessage) -> (r: bool)
    ensures
        r == carries_ctl_spec(*d),
{
    match d {
        DispatchMessage::Post(m) => m.is_ctl(),
        DispatchMessage::WithAck(m, _) => m.is_ctl(),
        DispatchMessage::DispatcherShutdown => false,
    }
}

/// What the dispatcher does with a request taken from the send channel.
pub enum Outgoing {
    /// Write the frame.
    Send(Frame),
    /// Write the frame, then put the outcome of the write on the request's
    /// acknowledgement channel.
    SendWithAck(Frame, AckSender<Ack>),
    /// Close the socket and stop the dispatcher.
    Shutdown,
    /// Drop the request: the socket is not open. The acknowledgement channel
    /// of a dropped request closes without a value.
    Skip,
}

/// The model of `route`.
pub open spec fn route_spec(d: DispatchMessage) -> Outgoing {
    match d {
        DispatchMessage::Post(m) => Outgoing::Send(frame_of_spec(m).unwrap()),
        DispatchMessage::WithAck(m, c) => Outgoing::SendWithAck(frame_of_spec(m).unwrap(), c),
        DispatchMessage::DispatcherShutdown => Outgoing::Shutdown,
    }
}

/// Routes a request of the native dispatcher: data messages are written,
/// acknowledged when asked for, and the shutdown request closes the socket.
pub fn route(d: DispatchMessage) -> (r: Outgoing)
    requires
        !carries_ctl_spec(d),
    ensures
        r == route_spec(d),
{
    match d {
        DispatchMessage::Post(message) => match frame_of(message) {
            Some(frame) => Outgoing::Send(frame),
            None => unreached(),
        },
        DispatchMessage::WithAck(message, ack) => match frame_of(message) {
            Some(frame) => Outgoing::SendWithAck(frame, ack),
            None => unreached(),
        },
        DispatchMessage::DispatcherShutdown => Outgoing::Shutdown,
    }
}

/// The model of `route_when`.
pub open spec fn route_when_spec(ready_state: u16, d: DispatchMessage) -> Outgoing {
    if ready_state != OPEN && !(d is DispatcherShutdown) {
        Outgoing::Skip
    } else {
        route_spec(d)
    }
}

/// Routes a request of the browser dispatcher, which reads the socket's
/// `readyState` first: while the socket is not open, every request but the
/// shutdown request is dropped.
pub fn route_when(ready_state: u16, d: DispatchMessage) -> (r: Outgoing)
    requires
        ready_state == OPEN ==> !carries_ctl_spec(d),
    ensures
        r == route_when_spec(ready_state, d),
{
    if ready_state != OPEN && !d.is_ctl() {
        return Outgoing::Skip;
    }
    route(d)
}

/// What arrived from the socket.
pub enum Incoming {
    Binary(Vec<u8>),
    Text(String),
    /// The peer closed the connection.
    Close,
    Ping,
    Pong,
    /// A raw frame.
    Frame,
    /// Reading from the socket failed.
    Failed,
    /// The socket's stream ended.
    Ended,
}

/// What the dispatcher does with what arrived.
pub enum Relay {
    /// Put `message` on the receive channel; if that fails, end the
    /// dispatcher with `failure`. Stop the dispatcher afterwards when
    /// `then_stop` holds.
    Deliver { message: Message, then_stop: bool, failure: Error },
    /// Nothing to do.
    Ignore,
}

/// The model of `relay`.
pub open spec fn relay_spec(event: Incoming) -> Relay {
    match event {
        Incoming::Binary(v) => Relay::Deliver {
            message: Message::Binary(v),
            then_stop: false,
            failure: Error::ReceiveChannel,
        },
        Incoming::Text(s) => Relay::Deliver {
            message: Message::Text(s),
            then_stop: false,
            failure: Error::ReceiveChannel,
        },
        Incoming::Close | Incoming::Failed | Incoming::Ended => Relay::Deliver {
            message: Message::Ctl(Ctl::Closed),
            then_stop: true,
            failure: Error::DispatchChannelSend,
        },
        Incoming::Ping | Incoming::Pong | Incoming::Frame => Relay::Ignore,
    }
}

/// Relays what arrived from the socket to the receive channel: data is
/// delivered as it came, the end of the connection is announced with
/// `Ctl::Closed` and stops the dispatcher, and ping, pong and raw frames are
/// ignored.
pub fn relay(event: Incoming) -> (r: Relay)
    ensures
        r == relay_spec(event),
{
    match event {
        Incoming::Binary(data) => Relay::Deliver {
            message: Message::Binary(data),
            then_stop: false,
            failure: Error::ReceiveChannel,
        },
        Incoming::Text(text) => Relay::Deliver {
            message: Message::Text(text),
            then_stop: false,
            failure: Error::ReceiveChannel,
        },
        Incoming::Close | Incoming::Failed | Incoming::Ended => Relay::Deliver {
            message: Message::Ctl(Ctl::Closed),
            then_stop: true,
            failure: Error::DispatchChannelSend,
        },
        Incoming::Ping | Incoming::Pong | Incoming::Frame => Relay::Ignore,
    }
}

/// The notice the dispatcher puts on the receive channel when it starts;
/// if that fails, the dispatcher ends with `DispatchChannelSend`.
pub fn opening_notice() -> (r: Relay)
    ensures
        r == (Relay::Deliver {
            message: Message::Ctl(Ctl::Open),
            then_stop: false,
            failure: Error::DispatchChannelSend,
        }),
{
    Relay::Deliver {
        message: Message::Ctl(Ctl::Open),
        then_stop: false,
        failure: Error::DispatchChannelSend,
    }
}

/// A data message reaches the socket with the bytes it carries.
pub proof fn lemma_frame_keeps_payload(message: Message)
    requires
        !(message is Ctl),
    ensures
        frame_of_spec(message) matches Some(f) && f.payload() == message.payload(),
{
}

/// Every data request is written with the bytes of its message, whichever
/// way it was queued.
pub proof fn lemma_route_keeps_payload(d: DispatchMessage)
    requires
        !carries_ctl_spec(d),
    ensures
        d matches DispatchMessage::Post(m) ==> (route_spec(d) matches Outgoing::Send(f) && f.payload() == m.payload()),
        d matches DispatchMessage::WithAck(m, _) ==> (route_spec(d) matches Outgoing::SendWithAck(f, _) && f.payload() == m.payload()),
{
}

/// While the socket is not open nothing is written, and the shutdown
/// request is honoured in every state.
pub proof fn lemma_closed_socket_writes_nothing(ready_state: u16, d: DispatchMessage)
    ensures
        ready_state != OPEN ==> !(route_when_spec(ready_state, d) is Send) && !(route_when_spec(ready_state, d) is SendWithAck),
        d is DispatcherShutdown ==> route_when_spec(ready_state, d) is Shutdown,
{
}

/// What arrives as data is delivered unchanged, and whatever ends the
/// connection is announced with `Ctl::Closed` and stops the dispatcher.
pub proof fn lemma_relay_delivers_data_and_announces_end(event: Incoming)
    ensures
        event matches Incoming::Binary(v) ==> (relay_spec(event) matches Relay::Deliver { message, then_stop, .. }
            && message.payload() == v@ && !then_stop),
        event matches Incoming::Text(s) ==> (relay_spec(event) matches Relay::Deliver { message, then_stop, .. }
            && message == Message::Text(s) && !then_stop),
        (event is Close || event is Failed || event is Ended) ==> (relay_spec(event) matches Relay::Deliver { message, then_stop, .. }
            && message == Message::Ctl(Ctl::Closed) && then_stop),
{
}

/// What the dispatcher puts on the receive channel over a sequence of
/// events from the socket, up to the event that stops it.
pub open spec fn relay_run(events: Seq<Incoming>) -> Seq<Message>
    decreases events.len(),
{
    if events.len() == 0 {
        Seq::empty()
    } else {
        match relay_spec(events[0]) {
            Relay::Deliver { message, then_stop, .. } => if then_stop {
                seq![message]
            } else {
                seq![message] + relay_run(events.drop_first())
            },
            Relay::Ignore => relay_run(events.drop_first()),
        }
    }
}

/// What one dispatcher run puts on the receive channel: the opening notice,
/// then what it relays from the socket. A run that ends on the local
/// shutdown request relays only a prefix of the socket's events.
pub open spec fn dispatcher_run(events: Seq<Incoming>) -> Seq<Message> {
    seq![Message::Ctl(Ctl::Open)] + relay_run(events)
}

/// Relayed messages are data, except possibly a final `Ctl::Closed`.
pub proof fn lemma_relay_run_shape(events: Seq<Incoming>)
    ensures
        forall|i: int| 0 <= i < relay_run(events).len() && (#[trigger] relay_run(events)[i] is Ctl)
            ==> relay_run(events)[i] == Message::Ctl(Ctl::Closed) && i == relay_run(events).len() - 1,
    decreases events.len(),
{
    if events.len() > 0 {
        let rest = events.drop_first();
        lemma_relay_run_shape(rest);
        let rs = relay_run(events);
        match relay_spec(events[0]) {
            Relay::Deliver { message, then_stop, .. } => {
                if !then_stop {
                    assert forall|i: int| 0 <= i < rs.len() && (#[trigger] rs[i] is Ctl)
                        implies rs[i] == Message::Ctl(Ctl::Closed) && i == rs.len() - 1 by {
                        if i > 0 {
                            assert(rs[i] == relay_run(rest)[i - 1]);
                        }
                    }
                }
            },
            Relay::Ignore => {},
        }
    }
}

/// Over a whole dispatcher run, the receive channel gets `Ctl::Open` first,
/// then only data messages, and at most one `Ctl::Closed`, which comes last.
pub proof fn lemma_dispatcher_run_order(events: Seq<Incoming>)
    ensures
        dispatcher_run(events)[0] == Message::Ctl(Ctl::Open),
        forall|i: int| 1 <= i < dispatcher_run(events).len() && (#[trigger] dispatcher_run(events)[i] is Ctl)
            ==> dispatcher_run(events)[i] == Message::Ctl(Ctl::Closed) && i == dispatcher_run(events).len() - 1,
{
    lemma_relay_run_shape(events);
    let ms = dispatcher_run(events);
    let rs = relay_run(events);
    assert forall|i: int| 1 <= i < ms.len() && (#[trigger] ms[i] is Ctl)
        implies ms[i] == Message::Ctl(Ctl::Closed) && i == ms.len() - 1 by {
        assert(ms[i] == rs[i - 1]);
    }
}

/// On an open socket the browser dispatcher routes every request as the
/// native one does: a posted data message is written with its bytes, a data
/// message with acknowledgement is written with its bytes and acknowledged on
/// its own channel, and the shutdown request stops the dispatcher.
pub proof fn lemma_open_socket_routes_like_native(d: DispatchMessage)
    requires
        !carries_ctl_spec(d),
    ensures
        route_when_spec(OPEN, d) == route_spec(d),
        d matches DispatchMessage::Post(m) ==> (route_when_spec(OPEN, d) matches Outgoing::Send(f)
            && f.payload() == m.payload()),
        d matches DispatchMessage::WithAck(m, a) ==> (route_when_spec(OPEN, d) matches Outgoing::SendWithAck(f, b)
            && f.payload() == m.payload() && b == a),
        d is DispatcherShutdown ==> route_when_spec(OPEN, d) is Shutdown,
{
}

} // verus!
