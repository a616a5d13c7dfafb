//! Inbound requests: reading the envelope of a frame and telling why a frame
//! holds none.

use crate::frame::{error_response, Frame, INVALID_REQUEST, PARSE_ERROR};
use crate::json::{
    borrowed_doc, error_text, json_doc, json_parse, optional_doc, parse_value, value_member,
    JsonDoc,
};
use serde_json::Value;
use vstd::prelude::*;
use vstd::string::StringExecFns;

verus! {

/// What the message of a parse failure starts with; the parser's own words
/// follow.
pub const PARSE_ERROR_PREFIX: &'static str = "Parse error: ";

/// The message for a frame without a method.
pub const MISSING_METHOD: &'static str = "Missing method field";

/// A request as it came in: a method, and the id and the parameters as the
/// sender wrote them, each of which may be absent.
#[derive(Debug)]
pub struct InboundRequest {
    pub id: Option<Value>,
    pub method: String,
    pub params: Option<Value>,
}

/// The mathematical model of an [`InboundRequest`].
pub struct RequestView {
    pub id: Option<JsonDoc>,
    pub method: Seq<char>,
    pub params: Option<JsonDoc>,
}

impl View for InboundRequest {
    type V = RequestView;

    open spec fn view(&self) -> RequestView {
        RequestView {
            id: optional_doc(self.id),
            method: self.method@,
            params: optional_doc(self.params),
        }
    }
}

/// Why a frame holds no request.
#[derive(Debug)]
pub enum ParseFailure {
    /// The frame is no JSON; `details` holds what the parser said.
    InvalidJson { details: String },
    /// The frame is JSON without a `method` that is a string; `id` holds the
    /// `id` member, if there was one.
    MissingMethod { id: Option<Value> },
}

/// The mathematical model of a [`ParseFailure`].
pub enum FailureView {
    InvalidJson { details: Seq<char> },
    MissingMethod { id: Option<JsonDoc> },
}

impl View for ParseFailure {
    type V = FailureView;

    open spec fn view(&self) -> FailureView {
        match self {
            ParseFailure::InvalidJson { details } => FailureView::InvalidJson { details: details@ },
            ParseFailure::MissingMethod { id } => FailureView::MissingMethod {
                id: optional_doc(*id),
            },
        }
    }
}

impl FailureView {
    /// The id that the refusal is addressed to: none can be read from what is
    /// no JSON.
    pub open spec fn id(self) -> Option<JsonDoc> {
        match self {
            FailureView::InvalidJson { .. } => None,
            FailureView::MissingMethod { id } => id,
        }
    }

    /// The error code of the refusal.
    pub open spec fn code(self) -> int {
        match self {
            FailureView::InvalidJson { .. } => PARSE_ERROR as int,
            FailureView::MissingMethod { .. } => INVALID_REQUEST as int,
        }
    }

    /// The message of the refusal.
    pub open spec fn message(self) -> Seq<char> {
        match self {
            FailureView::InvalidJson { details } => PARSE_ERROR_PREFIX@ + details,
            FailureView::MissingMethod { .. } => MISSING_METHOD@,
        }
    }

    /// The frame that refuses the input.
    pub open spec fn frame(self) -> Frame {
        Frame::refusal(self.id(), self.code(), self.message())
    }
}

/// The request that a JSON document holds: its `method` member where that is
/// a string, with the `id` and `params` members as they stand. A document
/// without such a `method` holds no request.
pub open spec fn envelope_of(doc: JsonDoc) -> Result<RequestView, FailureView> {
    match doc.member("method"@) {
        Some(JsonDoc::String(method)) => Ok(
            RequestView { id: doc.member("id"@), method, params: doc.member("params"@) },
        ),
        _ => Err(FailureView::MissingMethod { id: doc.member("id"@) }),
    }
}

/// The request that a frame holds.
pub open spec fn request_of(text: Seq<char>) -> Result<RequestView, FailureView> {
    match json_parse(text) {
        Ok(doc) => envelope_of(doc),
        Err(details) => Err(FailureView::InvalidJson { details }),
    }
}

/// Whether `model` is the model of `outcome`: of the request that was read,
/// or of the failure that was found.
pub open spec fn models(
    outcome: Result<InboundRequest, ParseFailure>,
    model: Result<RequestView, FailureView>,
) -> bool {
    match outcome {
        Ok(request) => model == Ok::<RequestView, FailureView>(request@),
        Err(failure) => model == Err::<RequestView, FailureView>(failure@),
    }
}

impl ParseFailure {
    /// The id that the refusal is addressed to.
    pub fn id(&self) -> (id: Option<&Value>)
        ensures
            borrowed_doc(id) == self@.id(),
    {
        match self {
            ParseFailure::InvalidJson { .. } => None,
            ParseFailure::MissingMethod { id } => id.as_ref(),
        }
    }

    /// The error code of the refusal.
    pub fn code(&self) -> (code: i16)
        ensures
            code == self@.code(),
    {
        match self {
            ParseFailure::InvalidJson { .. } => PARSE_ERROR,
            ParseFailure::MissingMethod { .. } => INVALID_REQUEST,
        }
    }

    /// The message of the refusal.
    pub fn message(&self) -> (message: String)
        ensures
            message@ == self@.message(),
    {
        match self {
            ParseFailure::InvalidJson { details } => {
                let mut message = String::from_str(PARSE_ERROR_PREFIX);
                message.append(details.as_str());
                message
            },
            ParseFailure::MissingMethod { .. } => String::from_str(MISSING_METHOD),
        }
    }

    /// The frame that refuses the input.
    pub fn response(&self) -> (text: String)
        ensures
            text@ == self@.frame().text(),
    {
        let message = self.message();
        error_response(self.id(), self.code(), message.as_str())
    }
}

/// Reads the envelope of a parsed frame.
pub fn read_envelope(doc: &Value) -> (outcome: Result<InboundRequest, ParseFailure>)
    ensures
        models(outcome, envelope_of(json_doc(*doc))),
{
    let id = value_member(doc, "id").cloned();
    let method = match value_member(doc, "method") {
        Some(member) => match member.as_str() {
            Some(text) => Some(text.to_owned()),
            None => None,
        },
        None => None,
    };
    match method {
        Some(method) => {
            let params = value_member(doc, "params").cloned();
            Ok(InboundRequest { id, method, params })
        },
        None => Err(ParseFailure::MissingMethod { id }),
    }
}

/// Reads the request that a frame holds: parses the text and reads the
/// envelope of what it holds.
pub fn parse_request(text: &str) -> (outcome: Result<InboundRequest, ParseFailure>)
    ensures
        models(outcome, request_of(text@)),
{
    match parse_value(text) {
        Ok(doc) => read_envelope(&doc),
        Err(error) => Err(ParseFailure::InvalidJson { details: error_text(&error) }),
    }
}

} // verus!
