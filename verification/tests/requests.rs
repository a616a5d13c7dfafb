use brp_relay::class::RequestClass;
use brp_relay::request::{parse_request, read_envelope, InboundRequest, ParseFailure};
use brp_relay::request::{MISSING_METHOD, PARSE_ERROR_PREFIX};
use serde_json::Value;

fn value(text: &str) -> Value {
    serde_json::from_str(text).unwrap()
}

fn accepted(text: &str) -> InboundRequest {
    match parse_request(text) {
        Ok(request) => request,
        Err(failure) => panic!("refused: {:?}", failure),
    }
}

fn refused(text: &str) -> ParseFailure {
    match parse_request(text) {
        Ok(request) => panic!("accepted: {:?}", request),
        Err(failure) => failure,
    }
}

#[test]
fn request_with_all_members_is_read() {
    let request = accepted(r#"{"id":7,"method":"world.get","params":{"entity":4}}"#);
    assert_eq!(request.id, Some(Value::from(7)));
    assert_eq!(request.method, "world.get");
    assert_eq!(request.params, Some(value(r#"{"entity":4}"#)));
}

#[test]
fn request_without_id_and_params_is_read() {
    let request = accepted(r#"{"method":"world.list"}"#);
    assert_eq!(request.id, None);
    assert_eq!(request.method, "world.list");
    assert_eq!(request.params, None);
}

#[test]
fn null_id_is_kept_as_null() {
    let request = accepted(r#"{"id":null,"method":"m"}"#);
    assert_eq!(request.id, Some(Value::Null));
}

#[test]
fn id_of_any_shape_is_kept() {
    assert_eq!(accepted(r#"{"id":"abc","method":"m"}"#).id, Some(Value::from("abc")));
    assert_eq!(accepted(r#"{"id":[1,"x"],"method":"m"}"#).id, Some(value(r#"[1,"x"]"#)));
    assert_eq!(accepted(r#"{"id":{"k":true},"method":"m"}"#).id, Some(value(r#"{"k":true}"#)));
    assert_eq!(accepted(r#"{"id":-12,"method":"m"}"#).id, Some(Value::from(-12)));
}

#[test]
fn empty_method_is_a_method() {
    let request = accepted(r#"{"id":1,"method":""}"#);
    assert_eq!(request.method, "");
}

#[test]
fn other_members_are_ignored() {
    let request = accepted(r#"{"jsonrpc":"2.0","id":1,"method":"m","extra":[1,2]}"#);
    assert_eq!(request.id, Some(Value::from(1)));
    assert_eq!(request.method, "m");
    assert_eq!(request.params, None);
}

#[test]
fn invalid_json_is_a_parse_failure() {
    match refused("not-json") {
        ParseFailure::InvalidJson { details } => {
            assert_eq!(details, "expected ident at line 1 column 2");
        }
        other => panic!("unexpected: {:?}", other),
    }
}

#[test]
fn parse_failure_carries_the_parsers_words() {
    for text in ["", "{", "{\"id\":1,}", "[1,2", "\"open", "{\"method\":\"m\"} trailing"] {
        let expected = serde_json::from_str::<Value>(text).unwrap_err().to_string();
        match refused(text) {
            ParseFailure::InvalidJson { details } => assert_eq!(details, expected),
            other => panic!("unexpected: {:?}", other),
        }
    }
}

#[test]
fn parse_failure_has_code_message_and_no_id() {
    let failure = refused("not-json");
    assert_eq!(failure.code(), -32700);
    assert_eq!(failure.message(), "Parse error: expected ident at line 1 column 2");
    assert!(failure.message().starts_with(PARSE_ERROR_PREFIX));
    assert_eq!(failure.id(), None);
}

#[test]
fn missing_method_keeps_the_id() {
    match refused(r#"{"id":3}"#) {
        ParseFailure::MissingMethod { id } => assert_eq!(id, Some(Value::from(3))),
        other => panic!("unexpected: {:?}", other),
    }
}

#[test]
fn missing_method_has_code_message_and_id() {
    let failure = refused(r#"{"id":3}"#);
    assert_eq!(failure.code(), -32600);
    assert_eq!(failure.message(), "Missing method field");
    assert_eq!(failure.message(), MISSING_METHOD);
    assert_eq!(failure.id(), Some(&Value::from(3)));
}

#[test]
fn method_that_is_no_string_is_missing() {
    for text in [
        r#"{"id":"a","method":5}"#,
        r#"{"id":"a","method":null}"#,
        r#"{"id":"a","method":["m"]}"#,
        r#"{"id":"a","method":{"name":"m"}}"#,
        r#"{"id":"a","method":true}"#,
    ] {
        match refused(text) {
            ParseFailure::MissingMethod { id } => assert_eq!(id, Some(Value::from("a"))),
            other => panic!("unexpected: {:?}", other),
        }
    }
}

#[test]
fn json_that_is_no_object_has_no_method_and_no_id() {
    for text in ["3", "null", "true", "\"method\"", "[]", r#"["id","method"]"#] {
        match refused(text) {
            ParseFailure::MissingMethod { id } => assert_eq!(id, None),
            other => panic!("unexpected: {:?}", other),
        }
    }
}

#[test]
fn empty_object_has_no_method_and_no_id() {
    match refused("{}") {
        ParseFailure::MissingMethod { id } => assert_eq!(id, None),
        other => panic!("unexpected: {:?}", other),
    }
}

#[test]
fn envelope_is_read_from_a_parsed_document() {
    let doc = value(r#"{"params":[1],"method":"a+watch","id":"x"}"#);
    let request = read_envelope(&doc).unwrap();
    assert_eq!(request.id, Some(Value::from("x")));
    assert_eq!(request.method, "a+watch");
    assert_eq!(request.params, Some(value("[1]")));
    assert_eq!(RequestClass::of_method(&request.method), RequestClass::Streaming);
}

#[test]
fn envelope_without_method_is_refused_from_a_parsed_document() {
    let doc = value(r#"{"id":9,"params":{}}"#);
    match read_envelope(&doc) {
        Err(ParseFailure::MissingMethod { id }) => assert_eq!(id, Some(Value::from(9))),
        other => panic!("unexpected: {:?}", other),
    }
}

#[test]
fn last_of_repeated_members_counts() {
    let request = accepted(r#"{"id":1,"method":"a","method":"b","id":2}"#);
    assert_eq!(request.id, Some(Value::from(2)));
    assert_eq!(request.method, "b");
}
