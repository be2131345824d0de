use vstd::prelude::*;
use vstd::pervasive::unreached;
use vstd::string::StringExecFns;
use wasm_bindgen::JsValue;
use async_std::channel::SendError;
use tungstenite::Error as WsError;
use crate::foreign::tungstenite_error_text;
use super::message::Message;

verus! {

/// Errors reported by the WebSocket client.
#[derive(Debug)]
pub enum Error {
    JsValue(JsValue),
    PoisonError,
    InvalidState(u16),
    DataEncoding,
    DataType,
    AlreadyConnected,
    NotConnected,
    DispatchChannelSend,
    DispatchChannelTrySend,
    ReceiveChannel,
    ConnectChannel,
    Tungstenite(WsError),
    ReceiverCtlSend(SendError<Message>),
    DispatchChannelAck,
    AlreadyInitialized,
}

impl Error {
    /// The fixed description of each error that carries no outside value.
    pub open spec fn description(self) -> Seq<char> {
        match self {
            Error::JsValue(_) => "JsValue "@,
            Error::PoisonError => "PoisonError"@,
            Error::InvalidState(_) => "InvalidState"@,
            Error::DataEncoding => "DataEncoding"@,
            Error::DataType => "DataType"@,
            Error::AlreadyConnected => "WebSocket is already connected"@,
            Error::NotConnected => "WebSocket is not connected"@,
            Error::DispatchChannelSend => "Dispatch channel send error"@,
            Error::DispatchChannelTrySend => "Dispatch channel try_send error"@,
            Error::ReceiveChannel => "Receive channel error"@,
            Error::ConnectChannel => "Connect channel error"@,
            Error::Tungstenite(_) => "WebSocket error: "@,
            Error::ReceiverCtlSend(_) => "Unable to send ctl to receiver"@,
            Error::DispatchChannelAck => "Dispatch channel ack error"@,
            Error::AlreadyInitialized => "WebSocket is already initialized"@,
        }
    }

    /// The human-readable description of the error. A protocol error is
    /// described by its fixed prefix followed by the protocol library's text;
    /// every other error by its fixed description alone. An error that
    /// carries a JavaScript value is not accepted: printing that value needs
    /// a JavaScript host, and without one it panics.
    pub fn to_string(&self) -> (r: String)
        requires
            !(self is JsValue),
        ensures
            self.description().is_prefix_of(r@),
            !(self is Tungstenite) ==> r@ == self.description(),
    {
        match self {
            Error::JsValue(_) => unreached(),
            Error::PoisonError => "PoisonError".to_owned(),
            Error::InvalidState(_) => "InvalidState".to_owned(),
            Error::DataEncoding => "DataEncoding".to_owned(),
            Error::DataType => "DataType".to_owned(),
            Error::AlreadyConnected => "WebSocket is already connected".to_owned(),
            Error::NotConnected => "WebSocket is not connected".to_owned(),
            Error::DispatchChannelSend => "Dispatch channel send error".to_owned(),
            Error::DispatchChannelTrySend => "Dispatch channel try_send error".to_owned(),
            Error::ReceiveChannel => "Receive channel error".to_owned(),
            Error::ConnectChannel => "Connect channel error".to_owned(),
            Error::Tungstenite(error) => {
                let mut text = "WebSocket error: ".to_owned();
                let detail = tungstenite_error_text(error);
                text.append(detail.as_str());
                text
            },
            Error::ReceiverCtlSend(_) => "Unable to send ctl to receiver".to_owned(),
            Error::DispatchChannelAck => "Dispatch channel ack error".to_owned(),
            Error::AlreadyInitialized => "WebSocket is already initialized".to_owned(),
        }
    }
}

impl From<JsValue> for Error {
    fn from(error: JsValue) -> (r: Error) {
        Error::JsValue(error)
    }
}

impl vstd::std_specs::convert::FromSpecImpl<JsValue> for Error {
    open spec fn obeys_from_spec() -> bool {
        true
    }

    open spec fn from_spec(v: JsValue) -> Error {
        Error::JsValue(v)
    }
}

} // verus!
