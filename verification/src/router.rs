//! The message router: from an inbound frame to either a refusal that goes
//! straight back, or a submission for the executor with the channel on which
//! its responses will come.

use crate::class::RequestClass;
use crate::executor::{bounded_channel, receiver_bound, sender_bound, ExecutorResult};
use crate::frame::{error_response, Frame, INTERNAL_ERROR};
use crate::json::{borrowed_doc, optional_doc};
use crate::relay::{RelayEvent, TaskView};
use crate::request::{parse_request, request_of, FailureView, InboundRequest, RequestView};
use async_channel::Receiver;
use bevy_remote::BrpMessage;
use serde_json::Value;
use vstd::prelude::*;

verus! {

/// The message of the refusal that is sent when the executor's intake is
/// closed.
pub const INTAKE_CLOSED: &'static str = "BRP channel closed";

/// An accepted request, ready to be handed to the executor.
#[derive(Debug)]
pub struct Submission {
    /// The id that every response to this request echoes.
    pub id: Option<Value>,
    /// Whether the request streams.
    pub class: RequestClass,
    /// What goes into the executor's intake: the method, the parameters and
    /// the producer end of the response channel.
    pub message: BrpMessage,
    /// The consumer end of the response channel.
    pub receiver: Receiver<ExecutorResult>,
}

impl Submission {
    /// This submission carries `request`, classed by its method, with both
    /// ends of a response channel whose bound is that of the class.
    pub open spec fn carries(self, request: RequestView) -> bool {
        &&& optional_doc(self.id) == request.id
        &&& self.class == RequestClass::of(request.method)
        &&& self.message.method@ == request.method
        &&& optional_doc(self.message.params) == request.params
        &&& sender_bound(self.message.sender) == self.class.bound()
        &&& receiver_bound(self.receiver) == self.class.bound()
    }
}

/// What the router makes of an inbound frame.
#[derive(Debug)]
pub enum Routed {
    /// The frame holds no request: the text is the refusal to write back.
    Refused(String),
    /// The frame holds a request.
    Accepted(Submission),
}

impl Routed {
    /// Whether this is what the router owes for a frame that reads as
    /// `request`.
    pub open spec fn answers(self, request: Result<RequestView, FailureView>) -> bool {
        match request {
            Ok(request) => self matches Routed::Accepted(submission) && submission.carries(request),
            Err(failure) => self matches Routed::Refused(text) && text@ == failure.frame().text(),
        }
    }
}

/// Prepares an accepted request for the executor: classes it by its method
/// and opens its response channel.
pub fn submission(request: InboundRequest) -> (submission: Submission)
    ensures
        submission.carries(request@),
{
    let class = RequestClass::of_method(request.method.as_str());
    let (sender, receiver) = bounded_channel(class.capacity());
    let InboundRequest { id, method, params } = request;
    Submission { id, class, message: BrpMessage { method, params, sender }, receiver }
}

/// Routes an inbound frame. Nothing is kept between frames: the same text
/// gets the same treatment every time, with a channel of its own.
pub fn route(text: &str) -> (routed: Routed)
    ensures
        routed.answers(request_of(text@)),
{
    match parse_request(text) {
        Ok(request) => Routed::Accepted(submission(request)),
        Err(failure) => Routed::Refused(failure.response()),
    }
}

/// The refusal for a request that the executor's intake did not take:
/// code -32603, message `BRP channel closed`, addressed to the request's id.
pub fn intake_closed(id: Option<&Value>) -> (text: String)
    ensures
        text@ == Frame::refusal(borrowed_doc(id), INTERNAL_ERROR as int, INTAKE_CLOSED@).text(),
{
    error_response(id, INTERNAL_ERROR, INTAKE_CLOSED)
}

/// A frame that is sent again starts a response cycle of its own, the same as
/// the first: the router remembers nothing and answers nothing from memory.
/// Whatever it made of the text the first time, it makes of it the second
/// time: the same refusal, or a submission of the same request in the same
/// class with a channel of the same bound. The relay task of the second
/// submission starts afresh, so the frames it writes are those that its own
/// events call for, wherever the first task has got to.
pub proof fn lemma_resubmission_starts_anew(
    text: Seq<char>,
    first: Routed,
    second: Routed,
    events: Seq<RelayEvent>,
)
    requires
        first.answers(request_of(text)),
        second.answers(request_of(text)),
    ensures
        first is Refused <==> second is Refused,
        first is Refused ==> first->Refused_0@ == second->Refused_0@,
        first is Accepted ==> ({
            let a = first->Accepted_0;
            let b = second->Accepted_0;
            &&& optional_doc(b.id) == optional_doc(a.id)
            &&& b.class == a.class
            &&& b.message.method@ == a.message.method@
            &&& optional_doc(b.message.params) == optional_doc(a.message.params)
            &&& sender_bound(b.message.sender) == sender_bound(a.message.sender)
            &&& receiver_bound(b.receiver) == receiver_bound(a.receiver)
            &&& TaskView::fresh(optional_doc(b.id), b.class).frames(events) == TaskView::fresh(
                optional_doc(a.id),
                a.class,
            ).frames(events)
        }),
{
}

} // verus!
