//! The response relay: one task per accepted request.
//!
//! A task first learns whether the executor's intake took the request. If it
//! did not, the task writes the refusal and ends. If it did, the task waits
//! for an item on the request's response channel, writes one frame for it,
//! and, for a streaming request, goes back to waiting until the channel
//! closes or a write fails. Submitting, waiting and writing are the caller's
//! part; the task decides what comes next.

use crate::class::RequestClass;
use crate::executor::ExecutorResult;
use crate::frame::{make_response, Frame, INTERNAL_ERROR};
use crate::json::{borrowed_doc, optional_doc, JsonDoc};
use crate::router::{intake_closed, INTAKE_CLOSED};
use serde_json::Value;
use vstd::prelude::*;

verus! {

/// Where a relay task stands.
#[derive(Clone, Copy, Debug, PartialEq, Eq, Structural)]
pub enum Phase {
    /// Waiting to learn whether the executor's intake took the request.
    Submitting,
    /// Waiting for the next item on the response channel.
    Receiving,
    /// Waiting for the connection to take the response just made.
    Writing,
    /// Waiting for the connection to take the refusal of a request that the
    /// intake did not take.
    Refusing,
    /// Done: nothing more is read or written.
    Finished,
}

/// What happened while the task was waiting.
#[derive(Debug)]
pub enum RelayEvent {
    /// The executor's intake took the request (`true`) or is closed
    /// (`false`).
    Submitted(bool),
    /// The response channel yielded an item.
    Item(ExecutorResult),
    /// The response channel is closed and empty.
    Closed,
    /// The connection took the frame (`true`) or failed to (`false`).
    Written(bool),
}

/// What the caller does next for the task.
#[derive(Debug)]
pub enum RelayAction {
    /// Wait for the next item on the response channel.
    Receive,
    /// Write this frame onto the connection.
    Write(String),
    /// End the task.
    Stop,
}

/// The mathematical model of a [`RelayAction`].
pub enum ActionView {
    Receive,
    Write(Frame),
    Stop,
}

impl RelayAction {
    /// Whether `view` is the model of this action: the same kind of action,
    /// and for a write the text of the frame.
    pub open spec fn models(self, view: ActionView) -> bool {
        match view {
            ActionView::Receive => self is Receive,
            ActionView::Write(frame) => self matches RelayAction::Write(text) && text@
                == frame.text(),
            ActionView::Stop => self is Stop,
        }
    }
}

/// The relay task of one accepted request.
#[derive(Debug)]
pub struct RelayTask {
    id: Option<Value>,
    class: RequestClass,
    phase: Phase,
}

/// The mathematical model of a [`RelayTask`].
pub struct TaskView {
    pub id: Option<JsonDoc>,
    pub class: RequestClass,
    pub phase: Phase,
}

impl View for RelayTask {
    type V = TaskView;

    closed spec fn view(&self) -> TaskView {
        TaskView { id: optional_doc(self.id), class: self.class, phase: self.phase }
    }
}

impl TaskView {
    /// The task of a request that is about to be handed to the executor.
    pub open spec fn fresh(id: Option<JsonDoc>, class: RequestClass) -> TaskView {
        TaskView { id, class, phase: Phase::Submitting }
    }

    /// The refusal of a request that the executor's intake did not take.
    pub open spec fn intake_closed(self) -> Frame {
        Frame::refusal(self.id, INTERNAL_ERROR as int, INTAKE_CLOSED@)
    }

    /// The same task in another phase.
    pub open spec fn at(self, phase: Phase) -> TaskView {
        TaskView { id: self.id, class: self.class, phase }
    }

    /// What the task does on an event, and where it stands afterwards.
    ///
    /// - Submitting, the intake took the request: receive.
    /// - Submitting, the intake is closed: write the refusal with the
    ///   request's id, and stop once the write is done.
    /// - Receiving, an item: write the frame that answers the request's id
    ///   with that item.
    /// - Receiving, the channel closed: stop, with nothing written.
    /// - Writing, the write done: a streaming task whose write succeeded
    ///   receives again; every other task stops.
    /// - An event that the phase does not wait for ends the task; a finished
    ///   task stays finished.
    pub open spec fn step(self, event: RelayEvent) -> (TaskView, ActionView) {
        match (self.phase, event) {
            (Phase::Submitting, RelayEvent::Submitted(true)) => (
                self.at(Phase::Receiving),
                ActionView::Receive,
            ),
            (Phase::Submitting, RelayEvent::Submitted(false)) => (
                self.at(Phase::Refusing),
                ActionView::Write(self.intake_closed()),
            ),
            (Phase::Receiving, RelayEvent::Item(item)) => (
                self.at(Phase::Writing),
                ActionView::Write(Frame::response(self.id, item)),
            ),
            (Phase::Writing, RelayEvent::Written(true)) => if self.class
                == RequestClass::Streaming {
                (self.at(Phase::Receiving), ActionView::Receive)
            } else {
                (self.at(Phase::Finished), ActionView::Stop)
            },
            _ => (self.at(Phase::Finished), ActionView::Stop),
        }
    }

    /// Where the task stands after a run of events.
    pub open spec fn after(self, events: Seq<RelayEvent>) -> TaskView
        decreases events.len(),
    {
        if events.len() == 0 {
            self
        } else {
            self.step(events[0]).0.after(events.drop_first())
        }
    }

    /// The frames that the task has written by the end of a run of events, in
    /// the order in which it wrote them.
    pub open spec fn frames(self, events: Seq<RelayEvent>) -> Seq<Frame>
        decreases events.len(),
    {
        if events.len() == 0 {
            Seq::empty()
        } else {
            let (next, action) = self.step(events[0]);
            let rest = next.frames(events.drop_first());
            match action {
                ActionView::Write(frame) => seq![frame] + rest,
                _ => rest,
            }
        }
    }
}

impl RelayTask {
    /// The task of a request that is about to be handed to the executor.
    pub fn new(id: Option<Value>, class: RequestClass) -> (task: RelayTask)
        ensures
            task@ == TaskView::fresh(optional_doc(id), class),
    {
        RelayTask { id, class, phase: Phase::Submitting }
    }

    /// Where the task stands.
    pub fn phase(&self) -> (phase: Phase)
        ensures
            phase == self@.phase,
    {
        self.phase
    }

    /// The class of the task's request.
    pub fn class(&self) -> (class: RequestClass)
        ensures
            class == self@.class,
    {
        self.class
    }

    /// The id that every frame written for the request carries.
    pub fn id(&self) -> (id: Option<&Value>)
        ensures
            borrowed_doc(id) == self@.id,
    {
        self.id.as_ref()
    }

    /// Takes an event and says what to do next.
    pub fn step(&mut self, event: RelayEvent) -> (action: RelayAction)
        ensures
            final(self)@ == old(self)@.step(event).0,
            action.models(old(self)@.step(event).1),
    {
        match self.phase {
            Phase::Submitting => match event {
                RelayEvent::Submitted(true) => {
                    self.phase = Phase::Receiving;
                    RelayAction::Receive
                },
                RelayEvent::Submitted(false) => {
                    let text = intake_closed(self.id.as_ref());
                    self.phase = Phase::Refusing;
                    RelayAction::Write(text)
                },
                _ => {
                    self.phase = Phase::Finished;
                    RelayAction::Stop
                },
            },
            Phase::Receiving => match event {
                RelayEvent::Item(item) => {
                    let text = make_response(self.id.as_ref(), item);
                    self.phase = Phase::Writing;
                    RelayAction::Write(text)
                },
                _ => {
                    self.phase = Phase::Finished;
                    RelayAction::Stop
                },
            },
            Phase::Writing => match event {
                RelayEvent::Written(true) => {
                    if self.class.is_streaming() {
                        self.phase = Phase::Receiving;
                        RelayAction::Receive
                    } else {
                        self.phase = Phase::Finished;
                        RelayAction::Stop
                    }
                },
                _ => {
                    self.phase = Phase::Finished;
                    RelayAction::Stop
                },
            },
            Phase::Refusing => {
                self.phase = Phase::Finished;
                RelayAction::Stop
            },
            Phase::Finished => RelayAction::Stop,
        }
    }
}

/// The events of a stream that goes well: the intake takes the request, each
/// item arrives and its frame is written, and after the last one the channel
/// closes.
pub open spec fn served(items: Seq<ExecutorResult>) -> Seq<RelayEvent> {
    seq![RelayEvent::Submitted(true)] + delivered(items)
}

/// The events of a stream that goes well, from the first item on.
pub open spec fn delivered(items: Seq<ExecutorResult>) -> Seq<RelayEvent>
    decreases items.len(),
{
    if items.len() == 0 {
        seq![RelayEvent::Closed]
    } else {
        seq![RelayEvent::Item(items[0]), RelayEvent::Written(true)] + delivered(
            items.drop_first(),
        )
    }
}

/// The frames that answer the request `id` with `items`, one for each item,
/// in their order.
pub open spec fn responses(id: Option<JsonDoc>, items: Seq<ExecutorResult>) -> Seq<Frame> {
    Seq::new(items.len(), |i: int| Frame::response(id, items[i]))
}

/// A frame answers with a result or with an error, never with both and never
/// with neither, and which of the two is decided by what the executor sent.
/// Its id is that of the request.
pub proof fn lemma_response_has_one_payload(id: Option<JsonDoc>, item: ExecutorResult)
    ensures
        Frame::response(id, item).id == id,
        item is Ok <==> Frame::response(id, item).payload is Result,
        item is Err <==> Frame::response(id, item).payload is Error,
        Frame::response(id, item).payload is Result != Frame::response(id, item).payload is Error,
{
}

/// A finished task writes nothing more and stays finished, whatever happens.
pub proof fn lemma_finished_is_final(task: TaskView, events: Seq<RelayEvent>)
    requires
        task.phase == Phase::Finished,
    ensures
        task.frames(events) == Seq::<Frame>::empty(),
        task.after(events) == task,
    decreases events.len(),
{
    if events.len() > 0 {
        assert(task.step(events[0]).0 == task);
        lemma_finished_is_final(task, events.drop_first());
    }
}

/// The frames of a run are the frame of its first event, if that writes one,
/// and then those of the rest of the run from where the first event leads.
proof fn lemma_frames_unfold(task: TaskView, first: RelayEvent, later: Seq<RelayEvent>)
    ensures
        task.frames(seq![first] + later) == (match task.step(first).1 {
            ActionView::Write(frame) => seq![frame],
            _ => Seq::<Frame>::empty(),
        }) + task.step(first).0.frames(later),
        task.after(seq![first] + later) == task.step(first).0.after(later),
{
    let events = seq![first] + later;
    assert(events[0] == first);
    assert(events.drop_first() == later);
    assert(Seq::<Frame>::empty() + task.step(first).0.frames(later) == task.step(first).0.frames(
        later,
    ));
}

/// A request that the executor's intake does not take is refused at once and
/// once: the task writes the refusal with code -32603, the message `BRP
/// channel closed` and the request's id, and nothing after it, whether the
/// write succeeds or not.
pub proof fn lemma_closed_intake_is_refused_once(
    id: Option<JsonDoc>,
    class: RequestClass,
    written: bool,
    later: Seq<RelayEvent>,
)
    ensures
        ({
            let events = seq![RelayEvent::Submitted(false), RelayEvent::Written(written)] + later;
            let task = TaskView::fresh(id, class);
            &&& task.frames(events) == seq![
                Frame::refusal(id, INTERNAL_ERROR as int, INTAKE_CLOSED@),
            ]
            &&& task.after(events).phase == Phase::Finished
        }),
{
    let task = TaskView::fresh(id, class);
    let tail = seq![RelayEvent::Written(written)] + later;
    assert(seq![RelayEvent::Submitted(false), RelayEvent::Written(written)] + later
        == seq![RelayEvent::Submitted(false)] + tail);
    lemma_frames_unfold(task, RelayEvent::Submitted(false), tail);
    lemma_frames_unfold(task.at(Phase::Refusing), RelayEvent::Written(written), later);
    lemma_finished_is_final(task.at(Phase::Finished), later);
}

/// A single-shot task writes exactly one frame once the executor has sent an
/// item: the frame that answers the request's id with that item. Whether the
/// write succeeds or not, and whatever happens afterwards, it writes no
/// second one.
pub proof fn lemma_single_shot_answers_once(
    id: Option<JsonDoc>,
    item: ExecutorResult,
    written: bool,
    later: Seq<RelayEvent>,
)
    ensures
        ({
            let events = seq![
                RelayEvent::Submitted(true),
                RelayEvent::Item(item),
                RelayEvent::Written(written),
            ] + later;
            let task = TaskView::fresh(id, RequestClass::SingleShot);
            &&& task.frames(events) == seq![Frame::response(id, item)]
            &&& task.after(events).phase == Phase::Finished
        }),
{
    let task = TaskView::fresh(id, RequestClass::SingleShot);
    let third = seq![RelayEvent::Written(written)] + later;
    let second = seq![RelayEvent::Item(item)] + third;
    assert(seq![RelayEvent::Submitted(true), RelayEvent::Item(item), RelayEvent::Written(written)]
        + later == seq![RelayEvent::Submitted(true)] + second);
    lemma_frames_unfold(task, RelayEvent::Submitted(true), second);
    lemma_frames_unfold(task.at(Phase::Receiving), RelayEvent::Item(item), third);
    lemma_frames_unfold(task.at(Phase::Writing), RelayEvent::Written(written), later);
    lemma_finished_is_final(task.at(Phase::Finished), later);
}

/// A task whose channel closes before any item came writes no frame at all.
pub proof fn lemma_closed_before_item_writes_nothing(
    id: Option<JsonDoc>,
    class: RequestClass,
    later: Seq<RelayEvent>,
)
    ensures
        ({
            let events = seq![RelayEvent::Submitted(true), RelayEvent::Closed] + later;
            let task = TaskView::fresh(id, class);
            &&& task.frames(events) == Seq::<Frame>::empty()
            &&& task.after(events).phase == Phase::Finished
        }),
{
    let task = TaskView::fresh(id, class);
    let second = seq![RelayEvent::Closed] + later;
    assert(seq![RelayEvent::Submitted(true), RelayEvent::Closed] + later == seq![
        RelayEvent::Submitted(true),
    ] + second);
    lemma_frames_unfold(task, RelayEvent::Submitted(true), second);
    lemma_frames_unfold(task.at(Phase::Receiving), RelayEvent::Closed, later);
    lemma_finished_is_final(task.at(Phase::Finished), later);
}

/// A receiving streaming task whose executor sends `items` and then closes
/// the channel writes one frame for each item, in their order.
proof fn lemma_delivered_in_order(task: TaskView, items: Seq<ExecutorResult>)
    requires
        task.phase == Phase::Receiving,
        task.class == RequestClass::Streaming,
    ensures
        task.frames(delivered(items)) == responses(task.id, items),
        task.after(delivered(items)).phase == Phase::Finished,
    decreases items.len(),
{
    if items.len() == 0 {
        lemma_frames_unfold(task, RelayEvent::Closed, Seq::empty());
        assert(seq![RelayEvent::Closed] + Seq::<RelayEvent>::empty() == delivered(items));
        lemma_finished_is_final(task.at(Phase::Finished), Seq::empty());
        assert(task.frames(delivered(items)) == responses(task.id, items));
    } else {
        let rest = items.drop_first();
        let tail = seq![RelayEvent::Written(true)] + delivered(rest);
        assert(delivered(items) == seq![RelayEvent::Item(items[0])] + tail);
        lemma_frames_unfold(task, RelayEvent::Item(items[0]), tail);
        lemma_frames_unfold(task.at(Phase::Writing), RelayEvent::Written(true), delivered(rest));
        assert(task.at(Phase::Writing).at(Phase::Receiving) == task);
        lemma_delivered_in_order(task, rest);
        assert(seq![Frame::response(task.id, items[0])] + responses(task.id, rest) == responses(
            task.id,
            items,
        ));
    }
}

/// A streaming task whose executor sends `items` and then closes the channel
/// writes exactly one frame for each item, each with the request's id, in the
/// order in which the items came, and no frame after the last.
pub proof fn lemma_stream_relays_in_order(id: Option<JsonDoc>, items: Seq<ExecutorResult>)
    ensures
        ({
            let task = TaskView::fresh(id, RequestClass::Streaming);
            &&& task.frames(served(items)) == responses(id, items)
            &&& task.frames(served(items)).len() == items.len()
            &&& forall|i: int|
                0 <= i < items.len() ==> (#[trigger] task.frames(served(items))[i]).id == id
            &&& task.after(served(items)).phase == Phase::Finished
        }),
{
    let task = TaskView::fresh(id, RequestClass::Streaming);
    lemma_frames_unfold(task, RelayEvent::Submitted(true), delivered(items));
    lemma_delivered_in_order(task.at(Phase::Receiving), items);
}

/// A streaming task whose write fails stops there: the frame that failed is
/// its last, whatever the executor goes on to send.
pub proof fn lemma_failed_write_ends_stream(
    id: Option<JsonDoc>,
    item: ExecutorResult,
    later: Seq<RelayEvent>,
)
    ensures
        ({
            let events = seq![
                RelayEvent::Submitted(true),
                RelayEvent::Item(item),
                RelayEvent::Written(false),
            ] + later;
            let task = TaskView::fresh(id, RequestClass::Streaming);
            &&& task.frames(events) == seq![Frame::response(id, item)]
            &&& task.after(events).phase == Phase::Finished
        }),
{
    let task = TaskView::fresh(id, RequestClass::Streaming);
    let third = seq![RelayEvent::Written(false)] + later;
    let second = seq![RelayEvent::Item(item)] + third;
    assert(seq![RelayEvent::Submitted(true), RelayEvent::Item(item), RelayEvent::Written(false)]
        + later == seq![RelayEvent::Submitted(true)] + second);
    lemma_frames_unfold(task, RelayEvent::Submitted(true), second);
    lemma_frames_unfold(task.at(Phase::Receiving), RelayEvent::Item(item), third);
    lemma_frames_unfold(task.at(Phase::Writing), RelayEvent::Written(false), later);
    lemma_finished_is_final(task.at(Phase::Finished), later);
}

} // verus!
