use vstd::prelude::*;
use vstd::pervasive::{arbitrary, unreached};
use vstd::slice::slice_to_vec;
use vstd::utf8::encode_utf8;
use vstd::std_specs::convert::FromSpec;
use workflow_core::channel::{oneshot, Receiver as AckReceiver, Sender as AckSender};
use super::error::Error;

verus! {

/// Control notifications delivered through the receive channel next to the
/// data messages.
#[derive(Debug, Clone, PartialEq, Eq, Structural, Hash)]
pub enum Ctl {
    Open,
    Closed,
    /// For use by external clients that need to send themselves a signal.
    Custom(u32),
    Shutdown,
}

/// A message exchanged with the server, or a control notification.
#[derive(Debug, Clone, PartialEq, Eq, Hash)]
pub enum Message {
    Text(String),
    Binary(Vec<u8>),
    Ctl(Ctl),
}

impl Message {
    /// The bytes a data message carries on the wire: the UTF-8 encoding of a
    /// text message, the bytes of a binary message. Control messages carry
    /// no bytes.
    pub open spec fn payload(self) -> Seq<u8> {
        match self {
            Message::Text(s) => encode_utf8(s@),
            Message::Binary(v) => v@,
            Message::Ctl(_) => Seq::empty(),
        }
    }

    /// Returns true exactly for control messages.
    pub fn is_ctl(&self) -> (r: bool)
        ensures
            r == (*self is Ctl),
    {
        match self {
            Message::Ctl(_) => true,
            _ => false,
        }
    }

    /// Borrows the bytes of a data message. A control message has no byte
    /// representation, so it is not accepted here.
    pub fn as_bytes(&self) -> (r: &[u8])
        requires
            !(*self is Ctl),
        ensures
            r@ == self.payload(),
    {
        match self {
            Message::Text(string) => string.as_str().as_bytes(),
            Message::Binary(vec) => vec.as_slice(),
            Message::Ctl(_) => unreached(),
        }
    }

    /// Turns a data message into its bytes. A control message has no byte
    /// representation, so it is not accepted here.
    pub fn into_bytes(self) -> (r: Vec<u8>)
        requires
            !(self is Ctl),
        ensures
            r@ == self.payload(),
    {
        match self {
            Message::Text(string) => slice_to_vec(string.as_str().as_bytes()),
            Message::Binary(vec) => vec,
            Message::Ctl(_) => unreached(),
        }
    }
}

impl From<Vec<u8>> for Message {
    fn from(vec: Vec<u8>) -> (r: Self) {
        Message::Binary(vec)
    }
}

impl vstd::std_specs::convert::FromSpecImpl<Vec<u8>> for Message {
    open spec fn obeys_from_spec() -> bool {
        true
    }

    open spec fn from_spec(v: Vec<u8>) -> Self {
        Message::Binary(v)
    }
}

impl From<String> for Message {
    fn from(s: String) -> (r: Self) {
        Message::Text(s)
    }
}

impl vstd::std_specs::convert::FromSpecImpl<String> for Message {
    open spec fn obeys_from_spec() -> bool {
        true
    }

    open spec fn from_spec(v: String) -> Self {
        Message::Text(v)
    }
}

impl<'a> From<&'a str> for Message {
    fn from(s: &'a str) -> (r: Self)
        ensures
            r matches Message::Text(t) && t@ == s@,
    {
        Message::Text(s.to_owned())
    }
}

/// A `String` cannot be built from a view in a specification, so the
/// conversion from `&str` has no specification function; its `ensures`
/// states the result instead.
impl<'a> vstd::std_specs::convert::FromSpecImpl<&'a str> for Message {
    open spec fn obeys_from_spec() -> bool {
        false
    }

    open spec fn from_spec(v: &'a str) -> Self {
        arbitrary()
    }
}

/// A byte vector converted into a message and back gives the same bytes,
/// and the message is a data message.
pub proof fn lemma_bytes_round_trip(v: Vec<u8>)
    ensures
        <Message as FromSpec<Vec<u8>>>::obeys_from_spec(),
        <Message as FromSpec<Vec<u8>>>::from_spec(v).payload() == v@,
        !(<Message as FromSpec<Vec<u8>>>::from_spec(v) is Ctl),
{
}

/// A string converted into a message carries the UTF-8 encoding of the
/// string, and the message is a data message.
pub proof fn lemma_text_round_trip(s: String)
    ensures
        <Message as FromSpec<String>>::obeys_from_spec(),
        <Message as FromSpec<String>>::from_spec(s).payload() == encode_utf8(s@),
        !(<Message as FromSpec<String>>::from_spec(s) is Ctl),
{
}

#[verifier::external_type_specification]
#[verifier::external_body]
#[verifier::reject_recursive_types(T)]
pub struct ExAckSender<T>(AckSender<T>);

#[verifier::external_type_specification]
#[verifier::external_body]
#[verifier::reject_recursive_types(T)]
pub struct ExAckReceiver<T>(AckReceiver<T>);

/// What the dispatcher reports for a request sent with acknowledgement:
/// success once the message was handed to the socket, or the error of that
/// hand-off.
pub type Ack = Result<(), Error>;

/// Whether a sender and a receiver are the two ends of one acknowledgement
/// channel, so that what is sent on the one is received on the other.
pub uninterp spec fn ack_channel_pair(sender: AckSender<Ack>, receiver: AckReceiver<Ack>) -> bool;

/// Calls `workflow_core::channel::oneshot`, which creates one channel with
/// room for one value (`bounded(1)`) and returns its two ends.
#[verifier::external_body]
fn oneshot_channel() -> (r: (AckSender<Ack>, AckReceiver<Ack>))
    ensures
        ack_channel_pair(r.0, r.1),
{
    oneshot::<Ack>()
}

/// A request handed to the dispatcher that owns the socket.
pub enum DispatchMessage {
    /// Send the message without waiting for it to be written.
    Post(Message),
    /// Send the message, then put the outcome of the hand-off to the socket
    /// on the acknowledgement channel.
    WithAck(Message, AckSender<Ack>),
    /// Close the socket and stop the dispatcher.
    DispatcherShutdown,
}

impl DispatchMessage {
    pub fn new(message: Message) -> (r: Self)
        ensures
            r == DispatchMessage::Post(message),
    {
        DispatchMessage::Post(message)
    }

    /// Wraps a message in a request with acknowledgement; the returned
    /// receiver gets the outcome once the dispatcher has handed the message
    /// to the socket.
    pub fn new_with_ack(message: Message) -> (r: (Self, AckReceiver<Ack>))
        ensures
            r.0 matches DispatchMessage::WithAck(m, s) && m == message && ack_channel_pair(s, r.1),
    {
        let (sender, receiver) = oneshot_channel();
        (DispatchMessage::WithAck(message, sender), receiver)
    }

    /// Returns true exactly for the dispatcher's own shutdown request.
    pub fn is_ctl(&self) -> (r: bool)
        ensures
            r == (*self is DispatcherShutdown),
    {
        match self {
            DispatchMessage::DispatcherShutdown => true,
            _ => false,
        }
    }
}

} // verus!
