use vstd::prelude::*;
use super::error::Error;
use workflow_core::channel::Receiver as AckReceiver;
use super::connection::RECONNECT_DELAY_MS;
use super::message::{ack_channel_pair, Ack, Ctl, DispatchMessage, Message};
use super::state::OPEN;

verus! {

/// The payload of a browser `MessageEvent`, as far as the client reads it.
pub enum EventData {
    /// An `ArrayBuffer` with these bytes.
    ArrayBuffer(Vec<u8>),
    /// A JavaScript string; `None` when it could not be read as a Rust
    /// string.
    Text(Option<String>),
    /// Any other JavaScript value.
    Other,
}

/// The model of `message_from_event_data`.
pub open spec fn message_from_event_data_spec(data: EventData) -> Result<Message, Error> {
    match data {
        EventData::ArrayBuffer(v) => Ok(Message::Binary(v)),
        EventData::Text(Some(s)) => Ok(Message::Text(s)),
        EventData::Text(None) => Err(Error::DataEncoding),
        EventData::Other => Err(Error::DataType),
    }
}

/// Turns the payload of a received browser event into a message: binary
/// data becomes a binary message, a string a text message; a string that
/// cannot be read is a `DataEncoding` error and any other value a
/// `DataType` error.
pub fn message_from_event_data(data: EventData) -> (r: Result<Message, Error>)
    ensures
        r == message_from_event_data_spec(data),
{
    match data {
        EventData::ArrayBuffer(bytes) => Ok(Message::Binary(bytes)),
        EventData::Text(text) => match text {
            Some(text) => Ok(Message::Text(text)),
            None => Err(Error::DataEncoding),
        },
        EventData::Other => Err(Error::DataType),
    }
}

/// The notice a browser socket puts on the receive channel when it closes:
/// `Ctl::Closed` if the socket had opened, nothing otherwise.
pub fn close_notice(was_connected: bool) -> (r: Option<Message>)
    ensures
        was_connected ==> r == Some(Message::Ctl(Ctl::Closed)),
        !was_connected ==> r is None,
{
    if was_connected {
        Some(Message::Ctl(Ctl::Closed))
    } else {
        None
    }
}

/// The notice a browser socket puts on the receive channel when the user
/// disconnects: `Ctl::Shutdown`.
pub fn disconnect_notice() -> (r: Message)
    ensures
        r == Message::Ctl(Ctl::Shutdown),
{
    Message::Ctl(Ctl::Shutdown)
}

/// Whether a browser socket is open, from its `readyState` when one exists:
/// a client that has no socket (before the first connect, after a close) is
/// not open.
pub fn is_open(ready_state: Option<u16>) -> (r: bool)
    ensures
        r == (ready_state == Some(OPEN)),
{
    match ready_state {
        Some(state) => state == OPEN,
        None => false,
    }
}

/// The request that queues `message` on a browser socket with this
/// `readyState` (if the client has a socket): refused with `NotConnected`
/// unless the socket is open.
pub fn post(ready_state: Option<u16>, message: Message) -> (r: Result<DispatchMessage, Error>)
    ensures
        ready_state == Some(OPEN) ==> r == Ok::<DispatchMessage, Error>(DispatchMessage::Post(message)),
        ready_state != Some(OPEN) ==> r matches Err(Error::NotConnected),
{
    if !is_open(ready_state) {
        return Err(Error::NotConnected);
    }
    Ok(DispatchMessage::new(message))
}

/// The request that sends `message` with acknowledgement on a browser
/// socket, and the receiver of that acknowledgement: refused with
/// `NotConnected` unless the socket is open.
pub fn send(ready_state: Option<u16>, message: Message) -> (r: Result<(DispatchMessage, AckReceiver<Ack>), Error>)
    ensures
        ready_state == Some(OPEN) ==> (r matches Ok((d, receiver)) && d matches DispatchMessage::WithAck(m, s)
            && m == message && ack_channel_pair(s, receiver)),
        ready_state != Some(OPEN) ==> r matches Err(Error::NotConnected),
{
    if !is_open(ready_state) {
        return Err(Error::NotConnected);
    }
    Ok(DispatchMessage::new_with_ack(message))
}

/// The model of a browser client's connection.
pub struct BrowserConnectionView {
    /// The URL a new socket connects to.
    pub url: Seq<char>,
    /// Whether the client opens a new socket after the current one closes.
    pub reconnect: bool,
    /// Whether the client holds a socket.
    pub initialized: bool,
}

/// What closing a browser client asks of the runtime.
pub enum BrowserClose {
    /// Close the socket the client holds.
    CloseSocket,
    /// There was no socket to close; the runtime reports this.
    NotInitialized,
}

/// What a browser client does after its socket closed and its dispatcher
/// stopped.
pub enum AfterClose {
    /// Wait this many milliseconds, then open a new socket.
    ReconnectAfter(u64),
    /// Stay disconnected.
    Stay,
}

/// The model of `BrowserConnection::close`.
pub open spec fn browser_close_step(v: BrowserConnectionView) -> (BrowserConnectionView, BrowserClose) {
    if v.initialized {
        (BrowserConnectionView { initialized: false, ..v }, BrowserClose::CloseSocket)
    } else {
        (v, BrowserClose::NotInitialized)
    }
}

/// The model of `BrowserConnection::after_close`.
pub open spec fn after_close_spec(v: BrowserConnectionView) -> AfterClose {
    if v.reconnect {
        AfterClose::ReconnectAfter(RECONNECT_DELAY_MS)
    } else {
        AfterClose::Stay
    }
}

/// The connection state of a browser client, shared by its callbacks and
/// the user's calls.
pub struct BrowserConnection {
    url: String,
    reconnect: bool,
    initialized: bool,
}

impl View for BrowserConnection {
    type V = BrowserConnectionView;

    closed spec fn view(&self) -> BrowserConnectionView {
        BrowserConnectionView { url: self.url@, reconnect: self.reconnect, initialized: self.initialized }
    }
}

impl BrowserConnection {
    /// A client for `url` that holds no socket yet and reconnects by default.
    pub fn new(url: &str) -> (r: Self)
        ensures
            r@ == (BrowserConnectionView { url: url@, reconnect: true, initialized: false }),
    {
        BrowserConnection { url: url.to_owned(), reconnect: true, initialized: false }
    }

    /// The URL a new socket connects to.
    pub fn url(&self) -> (r: String)
        ensures
            r@ == self@.url,
    {
        self.url.clone()
    }

    /// Changes the URL; the next socket connects to it.
    pub fn set_url(&mut self, url: &str)
        ensures
            final(self)@ == (BrowserConnectionView { url: url@, ..old(self)@ }),
    {
        self.url = url.to_owned();
    }

    /// Starts connecting: refused with `AlreadyInitialized` while the client
    /// holds a socket, in which case nothing changes; otherwise reconnection
    /// is turned on.
    pub fn connect(&mut self) -> (r: Result<(), Error>)
        ensures
            old(self)@.initialized ==> (r matches Err(Error::AlreadyInitialized) && final(self)@ == old(self)@),
            !old(self)@.initialized ==> (r is Ok && final(self)@ == (BrowserConnectionView {
                reconnect: true,
                ..old(self)@
            })),
    {
        if self.initialized {
            return Err(Error::AlreadyInitialized);
        }
        self.reconnect = true;
        Ok(())
    }

    /// Records that the client holds a socket: after a new socket was set
    /// up, or when closing the socket failed and the client still holds it.
    pub fn attached(&mut self)
        ensures
            final(self)@ == (BrowserConnectionView { initialized: true, ..old(self)@ }),
    {
        self.initialized = true;
    }

    /// Closes the socket if one is held.
    pub fn close(&mut self) -> (r: BrowserClose)
        ensures
            (final(self)@, r) == browser_close_step(old(self)@),
    {
        if self.initialized {
            self.initialized = false;
            BrowserClose::CloseSocket
        } else {
            BrowserClose::NotInitialized
        }
    }

    /// Turns reconnection off, closes the socket if one is held, and gives
    /// the notice to put on the receive channel.
    pub fn disconnect(&mut self) -> (r: (BrowserClose, Message))
        ensures
            (final(self)@, r.0) == browser_close_step(BrowserConnectionView { reconnect: false, ..old(self)@ }),
            r.1 == Message::Ctl(Ctl::Shutdown),
    {
        self.reconnect = false;
        (self.close(), disconnect_notice())
    }

    /// What the client does once its socket closed and its dispatcher
    /// stopped: reconnect after the delay unless reconnection is off.
    pub fn after_close(&self) -> (r: AfterClose)
        ensures
            r == after_close_spec(self@),
    {
        if self.reconnect {
            AfterClose::ReconnectAfter(RECONNECT_DELAY_MS)
        } else {
            AfterClose::Stay
        }
    }
}

/// After `disconnect`, a browser client holds no socket and no longer
/// reconnects when its socket closes; any close leaves it without a socket.
pub proof fn lemma_browser_disconnect_stays(v: BrowserConnectionView)
    ensures
        after_close_spec(browser_close_step(BrowserConnectionView { reconnect: false, ..v }).0) is Stay,
        !browser_close_step(v).0.initialized,
{
}

/// A received event never turns into a control message: control messages
/// only come from the client itself.
pub proof fn lemma_event_data_is_never_control(data: EventData)
    ensures
        message_from_event_data_spec(data) matches Ok(m) ==> !(m is Ctl),
{
}

/// Every binary payload is read as the binary message of exactly its bytes,
/// every readable string as the text message of exactly that string, and
/// only unreadable strings and other values are refused.
pub proof fn lemma_event_data_read_exactly(data: EventData)
    ensures
        data matches EventData::ArrayBuffer(v) ==> (message_from_event_data_spec(data) matches Ok(Message::Binary(w))
            && w@ == v@),
        data matches EventData::Text(Some(s)) ==> (message_from_event_data_spec(data) matches Ok(Message::Text(t))
            && t@ == s@),
        data matches EventData::Text(None) ==> message_from_event_data_spec(data) matches Err(Error::DataEncoding),
        data is Other ==> message_from_event_data_spec(data) matches Err(Error::DataType),
        message_from_event_data_spec(data) is Ok <==> (data is ArrayBuffer || data matches EventData::Text(Some(_))),
{
}

} // verus!
