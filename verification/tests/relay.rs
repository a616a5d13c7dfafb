use bevy_remote::{BrpError, BrpMessage};
use brp_relay::class::RequestClass;
use brp_relay::relay::{Phase, RelayAction, RelayEvent, RelayTask};
use brp_relay::router::{intake_closed, route, submission, Routed, Submission, INTAKE_CLOSED};
use brp_relay::request::parse_request;
use serde_json::Value;

fn value(text: &str) -> Value {
    serde_json::from_str(text).unwrap()
}

fn accepted(text: &str) -> Submission {
    match route(text) {
        Routed::Accepted(submission) => submission,
        Routed::Refused(frame) => panic!("refused: {}", frame),
    }
}

fn refused(text: &str) -> String {
    match route(text) {
        Routed::Accepted(submission) => panic!("accepted: {:?}", submission),
        Routed::Refused(frame) => frame,
    }
}

fn written(action: RelayAction) -> String {
    match action {
        RelayAction::Write(frame) => frame,
        other => panic!("no frame: {:?}", other),
    }
}

/// A task whose request the intake has taken.
fn receiving(id: Option<Value>, class: RequestClass) -> RelayTask {
    let mut task = RelayTask::new(id, class);
    assert_eq!(task.phase(), Phase::Submitting);
    assert!(matches!(task.step(RelayEvent::Submitted(true)), RelayAction::Receive));
    assert_eq!(task.phase(), Phase::Receiving);
    task
}

/// Plays the caller's part for one request with an intake that takes it and a
/// connection that takes every frame: receives until the task stops, and
/// returns the frames written.
fn drive(submission: Submission) -> Vec<String> {
    let Submission { id, class, message, receiver } = submission;
    drop(message);
    let mut task = RelayTask::new(id, class);
    let mut frames = Vec::new();
    let mut action = task.step(RelayEvent::Submitted(true));
    loop {
        action = match action {
            RelayAction::Receive => match receiver.try_recv() {
                Ok(item) => task.step(RelayEvent::Item(item)),
                Err(_) => task.step(RelayEvent::Closed),
            },
            RelayAction::Write(frame) => {
                frames.push(frame);
                task.step(RelayEvent::Written(true))
            }
            RelayAction::Stop => return frames,
        };
    }
}

#[test]
fn invalid_json_is_refused_at_once() {
    assert_eq!(
        refused("not-json"),
        r#"{"jsonrpc":"2.0","id":null,"error":{"code":-32700,"message":"Parse error: expected ident at line 1 column 2"}}"#
    );
}

#[test]
fn frame_without_method_is_refused_at_once() {
    assert_eq!(
        refused(r#"{"id":3}"#),
        r#"{"jsonrpc":"2.0","id":3,"error":{"code":-32600,"message":"Missing method field"}}"#
    );
}

#[test]
fn single_shot_request_gets_a_channel_of_one() {
    let submission = accepted(r#"{"id":7,"method":"world.get","params":[1,2]}"#);
    assert_eq!(submission.id, Some(Value::from(7)));
    assert_eq!(submission.class, RequestClass::SingleShot);
    assert_eq!(submission.message.method, "world.get");
    assert_eq!(submission.message.params, Some(value("[1,2]")));
    assert_eq!(submission.message.sender.capacity(), Some(1));
    assert_eq!(submission.receiver.capacity(), Some(1));
}

#[test]
fn streaming_request_gets_a_channel_of_eight() {
    let submission = accepted(r#"{"id":1,"method":"entity+watch"}"#);
    assert_eq!(submission.id, Some(Value::from(1)));
    assert_eq!(submission.class, RequestClass::Streaming);
    assert_eq!(submission.message.method, "entity+watch");
    assert_eq!(submission.message.params, None);
    assert_eq!(submission.message.sender.capacity(), Some(8));
    assert_eq!(submission.receiver.capacity(), Some(8));
}

#[test]
fn both_ends_belong_to_one_channel() {
    let submission = accepted(r#"{"id":1,"method":"m"}"#);
    assert!(submission.receiver.is_empty());
    submission.message.sender.try_send(Ok(Value::from(5))).unwrap();
    assert_eq!(submission.receiver.try_recv().unwrap().unwrap(), Value::from(5));
}

#[test]
fn submission_is_made_of_a_parsed_request() {
    let request = parse_request(r#"{"id":"a","method":"x+watch+y","params":null}"#).unwrap();
    let made = submission(request);
    assert_eq!(made.id, Some(Value::from("a")));
    assert_eq!(made.class, RequestClass::Streaming);
    assert_eq!(made.message.method, "x+watch+y");
    assert_eq!(made.message.params, Some(Value::Null));
    assert_eq!(made.receiver.capacity(), Some(8));
}

#[test]
fn single_shot_request_is_answered_once_with_its_id() {
    let submission = accepted(r#"{"id":7,"method":"world.get"}"#);
    let sender = submission.message.sender.clone();
    sender.try_send(Ok(value(r#"{"ok":true}"#))).unwrap();
    drop(sender);
    let frames = drive(submission);
    assert_eq!(frames, vec![r#"{"jsonrpc":"2.0","id":7,"result":{"ok":true}}"#.to_string()]);
}

#[test]
fn single_shot_request_is_answered_with_an_error() {
    let submission = accepted(r#"{"id":7,"method":"world.get"}"#);
    let sender = submission.message.sender.clone();
    let error = BrpError { code: -23401, message: "gone".to_string(), data: None };
    sender.try_send(Err(error)).unwrap();
    drop(sender);
    let frames = drive(submission);
    assert_eq!(
        frames,
        vec![r#"{"jsonrpc":"2.0","id":7,"error":{"code":-23401,"message":"gone"}}"#.to_string()]
    );
}

#[test]
fn single_shot_task_stops_after_its_frame() {
    let id = Value::from(7);
    let mut task = receiving(Some(id), RequestClass::SingleShot);
    let frame = written(task.step(RelayEvent::Item(Ok(Value::from(1)))));
    assert_eq!(frame, r#"{"jsonrpc":"2.0","id":7,"result":1}"#);
    assert_eq!(task.phase(), Phase::Writing);
    assert!(matches!(task.step(RelayEvent::Written(true)), RelayAction::Stop));
    assert_eq!(task.phase(), Phase::Finished);
    assert!(matches!(task.step(RelayEvent::Item(Ok(Value::from(2)))), RelayAction::Stop));
    assert_eq!(task.phase(), Phase::Finished);
}

#[test]
fn single_shot_task_stops_when_its_write_fails() {
    let mut task = receiving(None, RequestClass::SingleShot);
    let frame = written(task.step(RelayEvent::Item(Ok(Value::from(1)))));
    assert_eq!(frame, r#"{"jsonrpc":"2.0","id":null,"result":1}"#);
    assert!(matches!(task.step(RelayEvent::Written(false)), RelayAction::Stop));
    assert_eq!(task.phase(), Phase::Finished);
}

#[test]
fn single_shot_request_without_an_item_gets_no_frame() {
    let submission = accepted(r#"{"id":7,"method":"world.get"}"#);
    let frames = drive(submission);
    assert!(frames.is_empty());
    let mut task = receiving(Some(Value::from(7)), RequestClass::SingleShot);
    assert!(matches!(task.step(RelayEvent::Closed), RelayAction::Stop));
    assert_eq!(task.phase(), Phase::Finished);
}

#[test]
fn stream_of_three_items_gets_three_frames_in_order() {
    let submission = accepted(r#"{"id":1,"method":"entity+watch"}"#);
    let sender = submission.message.sender.clone();
    sender.try_send(Ok(Value::from("first"))).unwrap();
    sender.try_send(Ok(Value::from("second"))).unwrap();
    sender.try_send(Ok(Value::from("third"))).unwrap();
    drop(sender);
    let frames = drive(submission);
    assert_eq!(
        frames,
        vec![
            r#"{"jsonrpc":"2.0","id":1,"result":"first"}"#.to_string(),
            r#"{"jsonrpc":"2.0","id":1,"result":"second"}"#.to_string(),
            r#"{"jsonrpc":"2.0","id":1,"result":"third"}"#.to_string(),
        ]
    );
}

#[test]
fn stream_mixes_results_and_errors_in_order() {
    let submission = accepted(r#"{"id":"w","method":"+watch"}"#);
    let sender = submission.message.sender.clone();
    sender.try_send(Ok(Value::from(1))).unwrap();
    sender.try_send(Err(BrpError { code: 5, message: "e".to_string(), data: None })).unwrap();
    sender.try_send(Ok(Value::from(2))).unwrap();
    drop(sender);
    let frames = drive(submission);
    assert_eq!(
        frames,
        vec![
            r#"{"jsonrpc":"2.0","id":"w","result":1}"#.to_string(),
            r#"{"jsonrpc":"2.0","id":"w","error":{"code":5,"message":"e"}}"#.to_string(),
            r#"{"jsonrpc":"2.0","id":"w","result":2}"#.to_string(),
        ]
    );
}

#[test]
fn stream_without_items_gets_no_frame() {
    let submission = accepted(r#"{"id":1,"method":"entity+watch"}"#);
    let frames = drive(submission);
    assert!(frames.is_empty());
}

#[test]
fn streaming_task_receives_again_after_a_write() {
    let mut task = receiving(Some(Value::from(1)), RequestClass::Streaming);
    let first = written(task.step(RelayEvent::Item(Ok(Value::from(10)))));
    assert_eq!(first, r#"{"jsonrpc":"2.0","id":1,"result":10}"#);
    assert!(matches!(task.step(RelayEvent::Written(true)), RelayAction::Receive));
    assert_eq!(task.phase(), Phase::Receiving);
    let second = written(task.step(RelayEvent::Item(Ok(Value::from(20)))));
    assert_eq!(second, r#"{"jsonrpc":"2.0","id":1,"result":20}"#);
    assert!(matches!(task.step(RelayEvent::Written(true)), RelayAction::Receive));
    assert!(matches!(task.step(RelayEvent::Closed), RelayAction::Stop));
    assert_eq!(task.phase(), Phase::Finished);
}

#[test]
fn streaming_task_stops_when_a_write_fails() {
    let mut task = receiving(Some(Value::from(1)), RequestClass::Streaming);
    written(task.step(RelayEvent::Item(Ok(Value::from(10)))));
    assert!(matches!(task.step(RelayEvent::Written(false)), RelayAction::Stop));
    assert_eq!(task.phase(), Phase::Finished);
    assert!(matches!(task.step(RelayEvent::Item(Ok(Value::from(20)))), RelayAction::Stop));
    assert!(matches!(task.step(RelayEvent::Written(true)), RelayAction::Stop));
    assert_eq!(task.phase(), Phase::Finished);
}

#[test]
fn event_out_of_turn_ends_the_task() {
    let mut submitting = RelayTask::new(None, RequestClass::Streaming);
    assert!(matches!(submitting.step(RelayEvent::Item(Ok(Value::Null))), RelayAction::Stop));
    assert_eq!(submitting.phase(), Phase::Finished);
    let mut waiting = receiving(None, RequestClass::Streaming);
    assert!(matches!(waiting.step(RelayEvent::Written(true)), RelayAction::Stop));
    assert_eq!(waiting.phase(), Phase::Finished);
    let mut again = receiving(None, RequestClass::Streaming);
    assert!(matches!(again.step(RelayEvent::Submitted(true)), RelayAction::Stop));
    assert_eq!(again.phase(), Phase::Finished);
    let mut writing = receiving(None, RequestClass::Streaming);
    written(writing.step(RelayEvent::Item(Ok(Value::Null))));
    assert!(matches!(writing.step(RelayEvent::Item(Ok(Value::Null))), RelayAction::Stop));
    assert_eq!(writing.phase(), Phase::Finished);
    let mut closed = receiving(None, RequestClass::Streaming);
    written(closed.step(RelayEvent::Item(Ok(Value::Null))));
    assert!(matches!(closed.step(RelayEvent::Closed), RelayAction::Stop));
    assert_eq!(closed.phase(), Phase::Finished);
}

#[test]
fn task_keeps_id_and_class() {
    let task = RelayTask::new(Some(Value::from("k")), RequestClass::Streaming);
    assert_eq!(task.id(), Some(&Value::from("k")));
    assert_eq!(task.class(), RequestClass::Streaming);
    let bare = RelayTask::new(None, RequestClass::SingleShot);
    assert_eq!(bare.id(), None);
    assert_eq!(bare.class(), RequestClass::SingleShot);
}

#[test]
fn closed_intake_is_answered_with_an_internal_error() {
    let (intake, executor) = async_channel::bounded::<BrpMessage>(1);
    drop(executor);
    let Submission { id, class, message, receiver } = accepted(r#"{"id":42,"method":"world.get"}"#);
    let taken = intake.try_send(message).is_ok();
    assert!(!taken);
    let mut task = RelayTask::new(id, class);
    let frame = written(task.step(RelayEvent::Submitted(taken)));
    assert_eq!(
        frame,
        r#"{"jsonrpc":"2.0","id":42,"error":{"code":-32603,"message":"BRP channel closed"}}"#
    );
    assert_eq!(task.phase(), Phase::Refusing);
    assert!(matches!(task.step(RelayEvent::Written(true)), RelayAction::Stop));
    assert_eq!(task.phase(), Phase::Finished);
    assert!(receiver.try_recv().is_err());
}

#[test]
fn closed_intake_is_answered_once_for_a_stream_too() {
    let mut task = RelayTask::new(Some(Value::from("s")), RequestClass::Streaming);
    let frame = written(task.step(RelayEvent::Submitted(false)));
    assert_eq!(
        frame,
        r#"{"jsonrpc":"2.0","id":"s","error":{"code":-32603,"message":"BRP channel closed"}}"#
    );
    assert!(matches!(task.step(RelayEvent::Written(true)), RelayAction::Stop));
    assert!(matches!(task.step(RelayEvent::Item(Ok(Value::Null))), RelayAction::Stop));
    assert_eq!(task.phase(), Phase::Finished);
}

#[test]
fn refusal_that_cannot_be_written_ends_the_task() {
    let mut task = RelayTask::new(None, RequestClass::SingleShot);
    written(task.step(RelayEvent::Submitted(false)));
    assert!(matches!(task.step(RelayEvent::Written(false)), RelayAction::Stop));
    assert_eq!(task.phase(), Phase::Finished);
}

#[test]
fn closed_intake_frame_names_the_id() {
    let id = Value::from(42);
    assert_eq!(
        intake_closed(Some(&id)),
        r#"{"jsonrpc":"2.0","id":42,"error":{"code":-32603,"message":"BRP channel closed"}}"#
    );
    assert_eq!(INTAKE_CLOSED, "BRP channel closed");
}

#[test]
fn closed_intake_without_id_is_answered_with_null() {
    assert_eq!(
        intake_closed(None),
        r#"{"jsonrpc":"2.0","id":null,"error":{"code":-32603,"message":"BRP channel closed"}}"#
    );
}

#[test]
fn same_frame_twice_starts_two_cycles() {
    let text = r#"{"id":7,"method":"world.get","params":{"n":1}}"#;
    let first = accepted(text);
    let second = accepted(text);
    assert_eq!(first.id, second.id);
    assert_eq!(first.class, second.class);
    assert_eq!(first.message.method, second.message.method);
    assert_eq!(first.message.params, second.message.params);
    first.message.sender.try_send(Ok(Value::from("one"))).unwrap();
    assert!(second.receiver.is_empty());
    second.message.sender.try_send(Ok(Value::from("two"))).unwrap();
    let first_sender = first.message.sender.clone();
    let second_sender = second.message.sender.clone();
    drop(first_sender);
    drop(second_sender);
    assert_eq!(drive(first), vec![r#"{"jsonrpc":"2.0","id":7,"result":"one"}"#.to_string()]);
    assert_eq!(drive(second), vec![r#"{"jsonrpc":"2.0","id":7,"result":"two"}"#.to_string()]);
}

#[test]
fn same_bad_frame_twice_is_refused_twice_alike() {
    assert_eq!(refused("not-json"), refused("not-json"));
    assert_eq!(refused(r#"{"id":3}"#), refused(r#"{"id":3}"#));
}
