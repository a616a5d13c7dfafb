//! Request classes: which requests stream, and how large a response channel
//! each class gets.

use crate::text::{contains, occurs_in};
use vstd::prelude::*;

verus! {

/// A method whose name holds this marker streams its responses.
pub const WATCH_MARKER: &'static str = "+watch";

/// Bound of the response channel of a single-shot request.
pub const SINGLE_SHOT_CAPACITY: usize = 1;

/// Bound of the response channel of a streaming request: room for a short
/// burst from a source that keeps producing.
pub const STREAMING_CAPACITY: usize = 8;

/// How many responses a request may produce.
#[derive(Clone, Copy, Debug, PartialEq, Eq, Structural)]
pub enum RequestClass {
    /// At most one response.
    SingleShot,
    /// Any number of responses, until the executor drops its producer handle.
    Streaming,
}

impl RequestClass {
    /// The class of a method: streaming where its name holds the marker
    /// `+watch` anywhere, single-shot otherwise.
    pub open spec fn of(method: Seq<char>) -> RequestClass {
        if occurs_in(method, WATCH_MARKER@) {
            RequestClass::Streaming
        } else {
            RequestClass::SingleShot
        }
    }

    /// The bound of the response channel that a request of this class gets.
    pub open spec fn bound(self) -> nat {
        match self {
            RequestClass::SingleShot => SINGLE_SHOT_CAPACITY as nat,
            RequestClass::Streaming => STREAMING_CAPACITY as nat,
        }
    }

    /// The class of a method.
    pub fn of_method(method: &str) -> (class: RequestClass)
        ensures
            class == RequestClass::of(method@),
    {
        if contains(method, WATCH_MARKER) {
            RequestClass::Streaming
        } else {
            RequestClass::SingleShot
        }
    }

    /// The bound of the response channel that a request of this class gets:
    /// 8 for a streaming request, 1 for a single-shot one.
    pub fn capacity(self) -> (bound: usize)
        ensures
            bound == self.bound(),
            bound == 1 || bound == 8,
            (bound == 8) == (self == RequestClass::Streaming),
    {
        match self {
            RequestClass::SingleShot => SINGLE_SHOT_CAPACITY,
            RequestClass::Streaming => STREAMING_CAPACITY,
        }
    }

    /// Whether requests of this class stream.
    pub fn is_streaming(self) -> (streaming: bool)
        ensures
            streaming == (self == RequestClass::Streaming),
    {
        match self {
            RequestClass::SingleShot => false,
            RequestClass::Streaming => true,
        }
    }
}

} // verus!
