//! Outside types that the library's own types carry, and the calls that
//! render them as text.

use vstd::prelude::*;
use tungstenite::Error as WsError;
use tungstenite::Message as WsMessage;
use wasm_bindgen::JsValue;

verus! {

#[verifier::external_type_specification]
#[verifier::external_body]
pub struct ExJsValue(JsValue);

#[verifier::external_type_specification]
#[verifier::external_body]
pub struct ExTungsteniteError(WsError);

#[verifier::external_type_specification]
#[verifier::external_body]
pub struct ExTungsteniteMessage(WsMessage);

#[verifier::external_type_specification]
#[verifier::external_body]
#[verifier::reject_recursive_types(T)]
pub struct ExAsyncSendError<T>(async_std::channel::SendError<T>);

#[verifier::external_type_specification]
#[verifier::external_body]
#[verifier::reject_recursive_types(T)]
pub struct ExTokioSendError<T>(tokio::sync::mpsc::error::SendError<T>);

/// Calls the `Display` formatter of `tungstenite::Error`, the crate's own
/// description of a protocol or transport error. Nothing about the text is
/// stated.
#[verifier::external_body]
pub fn tungstenite_error_text(error: &WsError) -> String {
    format!("{}", error)
}

/// Calls the `Debug` formatter of `tokio::sync::mpsc::error::SendError`
/// holding a `tungstenite::Message`, which prints the struct's name and hides
/// its field: the text is always `SendError { .. }`.
#[verifier::external_body]
pub fn response_send_error_debug_text(error: &tokio::sync::mpsc::error::SendError<WsMessage>) -> (r: String)
    ensures
        r@ == "SendError { .. }"@,
{
    format!("{:?}", error)
}

} // verus!
