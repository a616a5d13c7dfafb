//! The connection manager and the status register.
//!
//! A connection lives once: it is opened, may come up, and closes for good.
//! The socket's events drive it; what it asks of the caller in return is to
//! publish a change of connectivity or to hand a text frame to the router.

use vstd::prelude::*;

verus! {

/// Where a connection stands. `Closed` is final.
#[derive(Clone, Copy, Debug, PartialEq, Eq, Structural)]
pub enum ConnectionState {
    Disconnected,
    Connecting,
    Connected,
    Closed,
}

/// What the socket reports.
#[derive(Debug)]
pub enum SocketEvent {
    /// The connection is up.
    Open,
    /// A frame with a textual payload came in.
    Text(String),
    /// A frame with any other payload came in.
    NonText,
    /// The connection is gone.
    Close,
    /// The socket met an error; a `Close` is expected to follow.
    Error,
}

/// What the caller does after an event.
#[derive(Debug)]
pub enum Reaction {
    /// Nothing.
    Nothing,
    /// Publish the new connectivity.
    Publish(bool),
    /// Hand this frame to the router.
    Dispatch(String),
}

/// The mathematical model of a [`Reaction`].
pub enum ReactionView {
    Nothing,
    Publish(bool),
    Dispatch(Seq<char>),
}

impl View for Reaction {
    type V = ReactionView;

    open spec fn view(&self) -> ReactionView {
        match self {
            Reaction::Nothing => ReactionView::Nothing,
            Reaction::Publish(connected) => ReactionView::Publish(*connected),
            Reaction::Dispatch(text) => ReactionView::Dispatch(text@),
        }
    }
}

impl ConnectionState {
    /// Whether the connection is up.
    pub open spec fn connected(self) -> bool {
        self == ConnectionState::Connected
    }

    /// The state after the caller has started to connect: a connection that
    /// was never started is now connecting; any other stays as it is.
    pub open spec fn started(self) -> ConnectionState {
        match self {
            ConnectionState::Disconnected => ConnectionState::Connecting,
            other => other,
        }
    }

    /// The state after an event of the socket. A connecting connection comes
    /// up when the socket opens; a connecting or connected one is closed when
    /// the socket closes. Nothing else changes the state: frames and errors
    /// leave it alone, and so does an event that cannot follow in the state.
    pub open spec fn on(self, event: SocketEvent) -> ConnectionState {
        match (self, event) {
            (ConnectionState::Connecting, SocketEvent::Open) => ConnectionState::Connected,
            (ConnectionState::Connecting, SocketEvent::Close) => ConnectionState::Closed,
            (ConnectionState::Connected, SocketEvent::Close) => ConnectionState::Closed,
            (state, _) => state,
        }
    }

    /// What the caller is asked to do after an event: publish the
    /// connectivity when the state has changed, dispatch a text frame in
    /// whatever state it comes, and nothing otherwise. A frame that is no
    /// text is dropped.
    pub open spec fn reaction(self, event: SocketEvent) -> ReactionView {
        match event {
            SocketEvent::Text(text) => ReactionView::Dispatch(text@),
            _ => if self.on(event) != self {
                ReactionView::Publish(self.on(event).connected())
            } else {
                ReactionView::Nothing
            },
        }
    }

    /// The state after a run of events.
    pub open spec fn after(self, events: Seq<SocketEvent>) -> ConnectionState
        decreases events.len(),
    {
        if events.len() == 0 {
            self
        } else {
            self.after(events.drop_last()).on(events.last())
        }
    }
}

/// The status register: the last known connectivity of the relay.
#[derive(Clone, Copy, Debug)]
pub struct BrpRelayStatus {
    connected: bool,
}

impl View for BrpRelayStatus {
    type V = bool;

    closed spec fn view(&self) -> bool {
        self.connected
    }
}

impl Default for BrpRelayStatus {
    /// The status before anything has happened: not connected.
    fn default() -> (status: Self)
        ensures
            !status@,
    {
        BrpRelayStatus { connected: false }
    }
}

impl BrpRelayStatus {
    /// Returns `true` if the relay is connected.
    pub fn connected(&self) -> (connected: bool)
        ensures
            connected == self@,
    {
        self.connected
    }
}

/// One connection and its status register.
#[derive(Debug)]
pub struct Connection {
    state: ConnectionState,
    status: BrpRelayStatus,
}

impl View for Connection {
    type V = ConnectionState;

    closed spec fn view(&self) -> ConnectionState {
        self.state
    }
}

impl Connection {
    #[verifier::type_invariant]
    spec fn status_follows_state(self) -> bool {
        self.status@ == self.state.connected()
    }

    /// A connection that was never started.
    pub fn new() -> (connection: Connection)
        ensures
            connection@ == ConnectionState::Disconnected,
    {
        Connection {
            state: ConnectionState::Disconnected,
            status: BrpRelayStatus { connected: false },
        }
    }

    /// Where the connection stands.
    pub fn state(&self) -> (state: ConnectionState)
        ensures
            state == self@,
    {
        self.state
    }

    /// The status register: connected exactly while the connection is up.
    pub fn status(&self) -> (status: BrpRelayStatus)
        ensures
            status@ == self@.connected(),
    {
        proof {
            use_type_invariant(self);
        }
        self.status
    }

    /// Marks the connection as started. Returns whether the caller is to open
    /// the socket: only a connection that was never started is opened, so a
    /// closed one is not connected again.
    pub fn connect(&mut self) -> (open: bool)
        ensures
            final(self)@ == old(self)@.started(),
            open == (old(self)@ == ConnectionState::Disconnected),
    {
        proof {
            use_type_invariant(&*self);
        }
        match self.state {
            ConnectionState::Disconnected => {
                self.state = ConnectionState::Connecting;
                true
            },
            _ => false,
        }
    }

    /// Takes an event of the socket and says what to do about it.
    pub fn on_event(&mut self, event: SocketEvent) -> (reaction: Reaction)
        ensures
            final(self)@ == old(self)@.on(event),
            reaction@ == old(self)@.reaction(event),
    {
        proof {
            use_type_invariant(&*self);
        }
        match event {
            SocketEvent::Text(text) => Reaction::Dispatch(text),
            SocketEvent::Open => match self.state {
                ConnectionState::Connecting => {
                    *self = Connection {
                        state: ConnectionState::Connected,
                        status: BrpRelayStatus { connected: true },
                    };
                    Reaction::Publish(true)
                },
                _ => Reaction::Nothing,
            },
            SocketEvent::Close => match self.state {
                ConnectionState::Connecting | ConnectionState::Connected => {
                    *self = Connection {
                        state: ConnectionState::Closed,
                        status: BrpRelayStatus { connected: false },
                    };
                    Reaction::Publish(false)
                },
                _ => Reaction::Nothing,
            },
            _ => Reaction::Nothing,
        }
    }
}

/// One event changes the connectivity in two ways only: from down to up when
/// the socket opens, and from up to down when it closes.
pub proof fn lemma_status_changes_with_open_and_close(state: ConnectionState, event: SocketEvent)
    ensures
        !state.connected() && state.on(event).connected() ==> event is Open,
        state.connected() && !state.on(event).connected() ==> event is Close,
{
}

/// Starting to connect does not change the connectivity.
pub proof fn lemma_connect_keeps_status(state: ConnectionState)
    ensures
        state.started().connected() == state.connected(),
{
}

/// Over any run of events from any state, the connectivity goes up only at an
/// `Open` and down only at a `Close`: where it differs before and after the
/// event at position `at`, that event is the one or the other.
pub proof fn lemma_status_follows_lifecycle(
    start: ConnectionState,
    events: Seq<SocketEvent>,
    at: int,
)
    requires
        0 <= at < events.len(),
    ensures
        ({
            let before = start.after(events.take(at)).connected();
            let after = start.after(events.take(at + 1)).connected();
            &&& !before && after ==> events[at] is Open
            &&& before && !after ==> events[at] is Close
        }),
{
    let upto = events.take(at + 1);
    assert(upto.drop_last() == events.take(at));
    assert(upto.last() == events[at]);
    lemma_status_changes_with_open_and_close(start.after(events.take(at)), events[at]);
}

/// A connection that was never up and sees no `Open` is not up.
pub proof fn lemma_down_until_open(start: ConnectionState, events: Seq<SocketEvent>)
    requires
        !start.connected(),
        forall|i: int| 0 <= i < events.len() ==> !(events[i] is Open),
    ensures
        !start.after(events).connected(),
    decreases events.len(),
{
    if events.len() > 0 {
        lemma_down_until_open(start, events.drop_last());
    }
}

/// `Closed` is final: a closed connection stays closed, and so stays down,
/// whatever the socket reports afterwards and however often the caller tries
/// to connect.
pub proof fn lemma_closed_is_final(events: Seq<SocketEvent>)
    ensures
        ConnectionState::Closed.after(events) == ConnectionState::Closed,
        ConnectionState::Closed.started() == ConnectionState::Closed,
        !ConnectionState::Closed.after(events).connected(),
    decreases events.len(),
{
    if events.len() > 0 {
        lemma_closed_is_final(events.drop_last());
    }
}

/// No event leads back: a connection never returns to `Disconnected` or to
/// `Connecting` from a later state.
pub proof fn lemma_lifecycle_moves_forward(state: ConnectionState, event: SocketEvent)
    ensures
        state.on(event) == ConnectionState::Disconnected ==> state == ConnectionState::Disconnected,
        state.on(event) == ConnectionState::Connecting ==> state == ConnectionState::Connecting,
        state == ConnectionState::Closed ==> state.on(event) == ConnectionState::Closed,
{
}

} // verus!
