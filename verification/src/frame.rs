//! Response frames: what the relay writes back onto the connection.
//!
//! A frame is a JSON object with three members, in this order: the protocol
//! version, the id of the request it answers, and either a result or an
//! error. The relay lays the object out itself and leaves every JSON value
//! inside it (the id, the result, an executor's error, the quoting of a
//! message) to `serde_json`.

use crate::executor::{serialize_error, serialized_error, ExecutorResult};
use crate::json::{borrowed_doc, json_doc, json_text, string_value, value_text, JsonDoc};
use crate::text::{integer_string, integer_text};
use serde_json::Value;
use vstd::prelude::*;
use vstd::string::StringExecFns;

verus! {

/// The input is no JSON.
pub const PARSE_ERROR: i16 = -32700;

/// The input is JSON but no request.
pub const INVALID_REQUEST: i16 = -32600;

/// The relay could not hand the request on, or could not serialise what the
/// executor reported.
pub const INTERNAL_ERROR: i16 = -32603;

/// The error member of a response frame.
pub enum FrameError {
    /// Raised by the relay itself: a code and a message, never more.
    Protocol { code: int, message: Seq<char> },
    /// Reported by the executor and passed on as it serialises.
    Reported(JsonDoc),
    /// Stands in for an executor's error that could not be serialised.
    Unserializable,
}

/// What a response frame carries: a result or an error, never both.
pub enum Payload {
    Result(JsonDoc),
    Error(FrameError),
}

/// The mathematical model of a response frame.
pub struct Frame {
    /// The id of the request; `None` where the request had none or where
    /// none could be read.
    pub id: Option<JsonDoc>,
    pub payload: Payload,
}

/// The text of `{"jsonrpc":"2.0","id":<id>,"<member>":<body>}`.
pub open spec fn envelope_text(id: Seq<char>, member: Seq<char>, body: Seq<char>) -> Seq<char> {
    "{\"jsonrpc\":\"2.0\",\"id\":"@ + id + ",\""@ + member + "\":"@ + body + "}"@
}

/// The text of `{"code":<code>,"message":<message>}`, where `message` is
/// already quoted.
pub open spec fn coded_error_text(code: int, quoted_message: Seq<char>) -> Seq<char> {
    "{\"code\":"@ + integer_text(code) + ",\"message\":"@ + quoted_message + "}"@
}

/// The text of `{"code":<code>}`.
pub open spec fn bare_error_text(code: int) -> Seq<char> {
    "{\"code\":"@ + integer_text(code) + "}"@
}

/// The text of a frame's id: `null` where there is none.
pub open spec fn id_text(id: Option<JsonDoc>) -> Seq<char> {
    match id {
        Some(doc) => json_text(doc),
        None => "null"@,
    }
}

impl FrameError {
    /// The text of the error object.
    pub open spec fn text(self) -> Seq<char> {
        match self {
            FrameError::Protocol { code, message } => coded_error_text(
                code,
                json_text(JsonDoc::String(message)),
            ),
            FrameError::Reported(doc) => json_text(doc),
            FrameError::Unserializable => bare_error_text(INTERNAL_ERROR as int),
        }
    }
}

impl Frame {
    /// The frame that answers the request `id` with what the executor sent.
    pub open spec fn response(id: Option<JsonDoc>, item: ExecutorResult) -> Frame {
        Frame {
            id,
            payload: match item {
                Ok(value) => Payload::Result(json_doc(value)),
                Err(error) => Payload::Error(
                    match serialized_error(error) {
                        Some(doc) => FrameError::Reported(doc),
                        None => FrameError::Unserializable,
                    },
                ),
            },
        }
    }

    /// The frame by which the relay itself refuses the request `id`.
    pub open spec fn refusal(id: Option<JsonDoc>, code: int, message: Seq<char>) -> Frame {
        Frame { id, payload: Payload::Error(FrameError::Protocol { code, message }) }
    }

    /// The text that goes onto the connection.
    pub open spec fn text(self) -> Seq<char> {
        match self.payload {
            Payload::Result(doc) => envelope_text(id_text(self.id), "result"@, json_text(doc)),
            Payload::Error(error) => envelope_text(id_text(self.id), "error"@, error.text()),
        }
    }
}

/// Lays out `{"jsonrpc":"2.0","id":<id>,"<member>":<body>}` around parts that
/// are JSON text already.
pub fn envelope(id: &str, member: &str, body: &str) -> (text: String)
    ensures
        text@ == envelope_text(id@, member@, body@),
{
    let mut text = String::from_str("{\"jsonrpc\":\"2.0\",\"id\":");
    text.append(id);
    text.append(",\"");
    text.append(member);
    text.append("\":");
    text.append(body);
    text.append("}");
    text
}

/// Lays out `{"code":<code>,"message":<message>}` around a message that is
/// quoted already.
pub fn coded_error(code: i16, quoted_message: &str) -> (text: String)
    ensures
        text@ == coded_error_text(code as int, quoted_message@),
{
    let mut text = String::from_str("{\"code\":");
    let digits = integer_string(code);
    text.append(digits.as_str());
    text.append(",\"message\":");
    text.append(quoted_message);
    text.append("}");
    text
}

/// Lays out `{"code":<code>}`.
pub fn bare_error(code: i16) -> (text: String)
    ensures
        text@ == bare_error_text(code as int),
{
    let mut text = String::from_str("{\"code\":");
    let digits = integer_string(code);
    text.append(digits.as_str());
    text.append("}");
    text
}

/// Renders the id of a frame: `null` where there is none.
pub fn render_id(id: Option<&Value>) -> (text: String)
    ensures
        text@ == id_text(borrowed_doc(id)),
{
    match id {
        Some(value) => value_text(value),
        None => String::from_str("null"),
    }
}

/// The frame that answers the request `id` with what the executor sent: a
/// result as it is, an error as it serialises, and `{"code":-32603}` in place
/// of an error that does not serialise.
pub fn make_response(id: Option<&Value>, result: ExecutorResult) -> (text: String)
    ensures
        text@ == Frame::response(borrowed_doc(id), result).text(),
{
    let id_text = render_id(id);
    match result {
        Ok(value) => {
            let body = value_text(&value);
            envelope(id_text.as_str(), "result", body.as_str())
        },
        Err(error) => {
            let body = match serialize_error(&error) {
                Ok(value) => value_text(&value),
                Err(_) => bare_error(INTERNAL_ERROR),
            };
            envelope(id_text.as_str(), "error", body.as_str())
        },
    }
}

/// The frame by which the relay itself refuses the request `id`: an error
/// object with `code` and `message` and nothing else.
pub fn error_response(id: Option<&Value>, code: i16, message: &str) -> (text: String)
    ensures
        text@ == Frame::refusal(borrowed_doc(id), code as int, message@).text(),
{
    let id_text = render_id(id);
    let quoted = value_text(&string_value(message.to_owned()));
    let body = coded_error(code, quoted.as_str());
    envelope(id_text.as_str(), "error", body.as_str())
}

} // verus!
