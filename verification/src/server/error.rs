use vstd::prelude::*;
use vstd::string::StringExecFns;
use tungstenite::Error as WsError;
use tungstenite::Message as WsMessage;
use tokio::sync::mpsc::error::SendError;
use crate::foreign::{response_send_error_debug_text, tungstenite_error_text};

verus! {

/// Errors that end a server connection.
#[derive(Debug)]
pub enum Error {
    /// No message arrived within the timeout.
    ConnectionTimeout,
    /// The first message was not a valid websocket message.
    MalformedHandshake,
    /// The handler refused the connection.
    NegotiationFailure,
    /// The handler refused the connection for the given reason.
    NegotiationFailureWithReason(String),
    /// A response could not be queued on the response channel.
    ResponseChannelError(SendError<WsMessage>),
    /// The underlying websocket implementation failed.
    WebSocketError(WsError),
    /// The connection was terminated abnormally.
    ConnectionClosed,
}

/// The variants of `tungstenite::Error`, one for one.
#[derive(Debug, Clone, Copy, PartialEq, Eq, Structural)]
pub enum ProtocolErrorKind {
    ConnectionClosed,
    AlreadyClosed,
    Io,
    Tls,
    Capacity,
    Protocol,
    WriteBufferFull,
    Utf8,
    AttackAttempt,
    Url,
    Http,
    HttpFormat,
}

/// The variant of a `tungstenite::Error`.
pub uninterp spec fn tungstenite_error_kind(error: WsError) -> ProtocolErrorKind;

/// Reads which variant of `tungstenite::Error` a value is (one arm per
/// variant, nothing moved): the result is the variant of the value.
#[verifier::external_body]
fn protocol_error_kind(error: &WsError) -> (r: ProtocolErrorKind)
    ensures
        r == tungstenite_error_kind(*error),
{
    match error {
        WsError::ConnectionClosed => ProtocolErrorKind::ConnectionClosed,
        WsError::AlreadyClosed => ProtocolErrorKind::AlreadyClosed,
        WsError::Io(_) => ProtocolErrorKind::Io,
        WsError::Tls(_) => ProtocolErrorKind::Tls,
        WsError::Capacity(_) => ProtocolErrorKind::Capacity,
        WsError::Protocol(_) => ProtocolErrorKind::Protocol,
        WsError::WriteBufferFull(_) => ProtocolErrorKind::WriteBufferFull,
        WsError::Utf8(_) => ProtocolErrorKind::Utf8,
        WsError::AttackAttempt => ProtocolErrorKind::AttackAttempt,
        WsError::Url(_) => ProtocolErrorKind::Url,
        WsError::Http(_) => ProtocolErrorKind::Http,
        WsError::HttpFormat(_) => ProtocolErrorKind::HttpFormat,
    }
}

/// Whether a protocol error of this kind is an ordinary end of a
/// connection (a normal close, a protocol violation or invalid UTF-8), which
/// the server does not report.
pub open spec fn is_ordinary_end(kind: ProtocolErrorKind) -> bool {
    kind is ConnectionClosed || kind is Protocol || kind is Utf8
}

/// Whether a protocol error of this kind is reported when a connection ends.
pub fn reports_protocol_error(kind: ProtocolErrorKind) -> (r: bool)
    ensures
        r == !is_ordinary_end(kind),
{
    match kind {
        ProtocolErrorKind::ConnectionClosed => false,
        ProtocolErrorKind::Protocol => false,
        ProtocolErrorKind::Utf8 => false,
        _ => true,
    }
}

impl Error {
    /// The fixed part of the description of each error.
    pub open spec fn description(self) -> Seq<char> {
        match self {
            Error::ConnectionTimeout => "Connection timeout"@,
            Error::MalformedHandshake => "Malformed handshake message"@,
            Error::NegotiationFailure => "Negotiation failure"@,
            Error::NegotiationFailureWithReason(_) => "Negotiation failure: "@,
            Error::ResponseChannelError(_) => "Response channel send error "@,
            Error::WebSocketError(_) => "WebSocket error: "@,
            Error::ConnectionClosed => "Connection closed abnormally"@,
        }
    }

    /// The human-readable description of the error: the fixed description,
    /// followed by the reason of a refused negotiation, by `SendError { .. }`
    /// for a failed response, or by the text of a websocket error.
    pub fn to_string(&self) -> (r: String)
        ensures
            self.description().is_prefix_of(r@),
            self matches Error::NegotiationFailureWithReason(reason) ==> r@ == self.description() + reason@,
            self is ResponseChannelError ==> r@ == self.description() + "SendError { .. }"@,
            !(self is NegotiationFailureWithReason) && !(self is ResponseChannelError) && !(self is WebSocketError)
                ==> r@ == self.description(),
    {
        match self {
            Error::ConnectionTimeout => "Connection timeout".to_owned(),
            Error::MalformedHandshake => "Malformed handshake message".to_owned(),
            Error::NegotiationFailure => "Negotiation failure".to_owned(),
            Error::NegotiationFailureWithReason(reason) => {
                let mut text = "Negotiation failure: ".to_owned();
                text.append(reason.as_str());
                text
            },
            Error::ResponseChannelError(error) => {
                let mut text = "Response channel send error ".to_owned();
                let detail = response_send_error_debug_text(error);
                text.append(detail.as_str());
                text
            },
            Error::WebSocketError(error) => {
                let mut text = "WebSocket error: ".to_owned();
                let detail = tungstenite_error_text(error);
                text.append(detail.as_str());
                text
            },
            Error::ConnectionClosed => "Connection closed abnormally".to_owned(),
        }
    }

    /// Whether the server reports this error when the connection ends: every
    /// error is reported except a websocket error that marks an ordinary end
    /// (a normal close, a protocol violation or invalid UTF-8).
    pub fn is_reported(&self) -> (r: bool)
        ensures
            r == match self {
                Error::WebSocketError(error) => !is_ordinary_end(tungstenite_error_kind(*error)),
                _ => true,
            },
    {
        match self {
            Error::WebSocketError(error) => reports_protocol_error(protocol_error_kind(error)),
            _ => true,
        }
    }
}

} // verus!
