//! JSON values as the relay sees them.
//!
//! The relay never computes with JSON itself: `serde_json` parses the inbound
//! text, hands out members of the parsed document and renders values back to
//! text. This module gives those values a mathematical model, [`JsonDoc`], and
//! states what each `serde_json` call that the relay makes does in terms of it.
//! Everything stated here about `serde_json` is taken on trust.

use serde_json::Value;
use vstd::prelude::*;

verus! {

/// The mathematical model of a JSON value.
pub enum JsonDoc {
    Null,
    Bool(bool),
    /// A number, by the literal that stands for it in compact JSON text.
    Number(Seq<char>),
    String(Seq<char>),
    Array(Seq<JsonDoc>),
    /// The members of an object, in the order in which the object holds them.
    Object(Seq<(Seq<char>, JsonDoc)>),
}

impl JsonDoc {
    /// The position of the first member named `key` at or after `from`, if
    /// there is one.
    pub open spec fn position(
        members: Seq<(Seq<char>, JsonDoc)>,
        key: Seq<char>,
        from: int,
    ) -> Option<int>
        decreases members.len() - from,
    {
        if from < 0 || from >= members.len() {
            None
        } else if members[from].0 == key {
            Some(from)
        } else {
            Self::position(members, key, from + 1)
        }
    }

    /// The member of an object that is named `key`; `None` for an object
    /// without such a member and for every value that is no object.
    pub open spec fn member(self, key: Seq<char>) -> Option<JsonDoc> {
        match self {
            JsonDoc::Object(members) => match Self::position(members, key, 0) {
                Some(i) => Some(members[i].1),
                None => None,
            },
            _ => None,
        }
    }

    /// The text of a JSON string; `None` for every other value.
    pub open spec fn as_string(self) -> Option<Seq<char>> {
        match self {
            JsonDoc::String(s) => Some(s),
            _ => None,
        }
    }
}

/// `serde_json::Value`. What one holds is said by [`json_doc`] alone.
#[verifier::external_type_specification]
#[verifier::external_body]
pub struct ExValue(serde_json::Value);

/// `serde_json::Error`. What one says is said by [`error_message`] alone.
#[verifier::external_type_specification]
#[verifier::external_body]
pub struct ExJsonError(serde_json::Error);

/// The document that a `serde_json::Value` holds.
pub uninterp spec fn json_doc(value: Value) -> JsonDoc;

/// The document that `serde_json::from_str` reads from a text, or the error
/// that it reports, by its message.
pub uninterp spec fn json_parse(text: Seq<char>) -> Result<JsonDoc, Seq<char>>;

/// The compact JSON text that `serde_json` writes for a document.
pub uninterp spec fn json_text(doc: JsonDoc) -> Seq<char>;

/// The message that a `serde_json::Error` displays.
pub uninterp spec fn error_message(error: serde_json::Error) -> Seq<char>;

/// The model of an optional value.
pub open spec fn optional_doc(value: Option<Value>) -> Option<JsonDoc> {
    match value {
        Some(v) => Some(json_doc(v)),
        None => None,
    }
}

/// The model of an optional borrowed value.
pub open spec fn borrowed_doc(value: Option<&Value>) -> Option<JsonDoc> {
    match value {
        Some(v) => Some(json_doc(*v)),
        None => None,
    }
}

/// Calls `serde_json::from_str` for a `Value`. Trusted: the outcome depends on
/// the text alone, so it is the one that [`json_parse`] names.
#[verifier::external_body]
pub(crate) fn parse_value(text: &str) -> (r: Result<Value, serde_json::Error>)
    ensures
        match r {
            Ok(value) => json_parse(text@) == Ok::<JsonDoc, Seq<char>>(json_doc(value)),
            Err(error) => json_parse(text@) == Err::<JsonDoc, Seq<char>>(error_message(error)),
        },
{
    serde_json::from_str(text)
}

/// Calls `Value::get` with a string key. Trusted: `get` returns the member of
/// that name when the value is an object that has one, and `None` in every
/// other case.
#[verifier::external_body]
pub(crate) fn value_member<'a>(value: &'a Value, key: &str) -> (r: Option<&'a Value>)
    ensures
        borrowed_doc(r) == json_doc(*value).member(key@),
{
    value.get(key)
}

/// `Value::clone` returns a copy of the value. Trusted.
pub assume_specification[ <Value as Clone>::clone ](value: &Value) -> (r: Value)
    ensures
        r == *value,
;

/// `Value::as_str` returns the text of a JSON string and `None` for every
/// other value. Trusted.
pub assume_specification<'a>[ serde_json::Value::as_str ](value: &'a Value) -> (r: Option<&'a str>)
    ensures
        match r {
            Some(s) => json_doc(*value).as_string() == Some(s@),
            None => json_doc(*value).as_string() is None,
        },
;

/// Builds `Value::String`. Trusted: the value holds that string.
#[verifier::external_body]
pub(crate) fn string_value(text: String) -> (r: Value)
    ensures
        json_doc(r) == JsonDoc::String(text@),
{
    Value::String(text)
}

/// Calls `to_string` on a `Value`, which writes compact JSON. Trusted: the
/// text depends on the document alone, so it is the one that [`json_text`]
/// names.
#[verifier::external_body]
pub(crate) fn value_text(value: &Value) -> (r: String)
    ensures
        r@ == json_text(json_doc(*value)),
{
    value.to_string()
}

/// Calls `to_string` on a `serde_json::Error`. Trusted: the result is the
/// message that [`error_message`] names.
#[verifier::external_body]
pub(crate) fn error_text(error: &serde_json::Error) -> (r: String)
    ensures
        r@ == error_message(*error),
{
    error.to_string()
}

} // verus!
