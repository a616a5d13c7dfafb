//! The executor's side of the relay: the message that carries a request to
//! it, the channel on which it answers, and the errors it reports.
//!
//! The types are those of `bevy_remote` and `async_channel`; what is stated of
//! them here is taken on trust.

use crate::json::{json_doc, JsonDoc};
use async_channel::{Receiver, Sender};
use bevy_remote::BrpError;
use serde_json::Value;
use vstd::prelude::*;

verus! {

/// `bevy_remote::BrpError`, the error that an executor reports. The relay
/// passes it on and never looks inside.
#[verifier::external_type_specification]
#[verifier::external_body]
pub struct ExBrpError(bevy_remote::BrpError);

/// `async_channel::Sender`, the producer end of a channel.
#[verifier::external_type_specification]
#[verifier::external_body]
#[verifier::reject_recursive_types(T)]
pub struct ExSender<T>(async_channel::Sender<T>);

/// `async_channel::Receiver`, the consumer end of a channel.
#[verifier::external_type_specification]
#[verifier::external_body]
#[verifier::reject_recursive_types(T)]
pub struct ExReceiver<T>(async_channel::Receiver<T>);

/// `bevy_remote::BrpMessage`, what goes into the executor's intake. Its three
/// fields are public and the router fills them in, so it is declared with
/// them: `method`, `params` and `sender`.
#[verifier::external_type_specification]
pub struct ExBrpMessage(bevy_remote::BrpMessage);

/// What the executor answers a request with.
pub type ExecutorResult = Result<Value, BrpError>;

/// The capacity of the channel behind a sender: the number of items that it
/// holds at most.
pub uninterp spec fn sender_bound(sender: Sender<Result<Value, BrpError>>) -> nat;

/// The capacity of the channel behind a receiver: the number of items that it
/// holds at most.
pub uninterp spec fn receiver_bound(receiver: Receiver<Result<Value, BrpError>>) -> nat;

/// The document that `serde_json::to_value` makes of an executor's error;
/// `None` where it reports that the error cannot be serialised.
pub uninterp spec fn serialized_error(error: BrpError) -> Option<JsonDoc>;

/// Calls `async_channel::bounded`, which panics on a bound of zero. Trusted:
/// the two ends that it returns have the capacity `bound`.
#[verifier::external_body]
pub(crate) fn bounded_channel(bound: usize) -> (ends: (
    Sender<ExecutorResult>,
    Receiver<ExecutorResult>,
))
    requires
        bound > 0,
    ensures
        sender_bound(ends.0) == bound,
        receiver_bound(ends.1) == bound,
{
    async_channel::bounded(bound)
}

/// Calls `serde_json::to_value` on an executor's error. Trusted: the outcome
/// depends on the error alone, so it is the one that [`serialized_error`]
/// names.
#[verifier::external_body]
pub(crate) fn serialize_error(error: &BrpError) -> (r: Result<Value, serde_json::Error>)
    ensures
        match r {
            Ok(value) => serialized_error(*error) == Some(json_doc(value)),
            Err(_) => serialized_error(*error) is None,
        },
{
    serde_json::to_value(error)
}

} // verus!
