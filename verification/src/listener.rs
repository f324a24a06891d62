//! The listener: a state machine from what binding and accepting report to
//! what is to be done about it.

use vstd::prelude::*;
use vstd::string::StringExecFns;

verus! {

/// The address that a server binds where it is given no other.
pub const DEFAULT_BIND_ADDRESS: &'static str = "0.0.0.0:8080";

/// What precedes the address in the confirmation of a start.
pub const CONFIRMATION_PREFIX: &'static str = "Server started on ";

/// Where a listener stands.
#[derive(Clone, Copy, Debug, PartialEq, Eq, Structural)]
pub enum ListenerState {
    /// Not bound: nothing is accepted.
    Idle,
    /// Bound: connections are accepted, one after the other, without end.
    Accepting,
}

/// What binding and accepting report.
#[derive(Debug, PartialEq, Eq)]
pub enum ListenerEvent {
    /// The address was bound.
    Bound,
    /// The address could not be bound, for the reason given.
    BindFailed(String),
    /// A connection was accepted.
    Accepted,
    /// Accepting a connection failed.
    AcceptFailed,
}

/// The mathematical value of a [`ListenerEvent`].
pub enum ListenerEventView {
    Bound,
    BindFailed(Seq<char>),
    Accepted,
    AcceptFailed,
}

impl View for ListenerEvent {
    type V = ListenerEventView;

    open spec fn view(&self) -> ListenerEventView {
        match self {
            ListenerEvent::Bound => ListenerEventView::Bound,
            ListenerEvent::BindFailed(reason) => ListenerEventView::BindFailed(reason@),
            ListenerEvent::Accepted => ListenerEventView::Accepted,
            ListenerEvent::AcceptFailed => ListenerEventView::AcceptFailed,
        }
    }
}

/// What the listener asks of whoever drives it.
#[derive(Debug, PartialEq, Eq)]
pub enum ListenerAction {
    /// Answer the caller of the start with this confirmation, and begin to
    /// accept.
    Confirm(String),
    /// Answer the caller of the start with this error, and accept nothing.
    Refuse(String),
    /// Hand the accepted connection to a handler of its own, and accept the
    /// next without waiting for it.
    Spawn,
    /// Nothing: where connections are accepted, accept the next.
    Nothing,
}

/// The mathematical value of a [`ListenerAction`].
pub enum ListenerActionView {
    Confirm(Seq<char>),
    Refuse(Seq<char>),
    Spawn,
    Nothing,
}

impl View for ListenerAction {
    type V = ListenerActionView;

    open spec fn view(&self) -> ListenerActionView {
        match self {
            ListenerAction::Confirm(text) => ListenerActionView::Confirm(text@),
            ListenerAction::Refuse(reason) => ListenerActionView::Refuse(reason@),
            ListenerAction::Spawn => ListenerActionView::Spawn,
            ListenerAction::Nothing => ListenerActionView::Nothing,
        }
    }
}

/// The confirmation of a start at `address`.
pub open spec fn confirmation(address: Seq<char>) -> Seq<char> {
    CONFIRMATION_PREFIX@ + address
}

/// The transition of a listener for `address`: the state that follows
/// `state` on `event`, and the action that goes with it.
///
/// Only a failure to bind is answered with an error, and it leaves the
/// listener idle. Once bound, the listener accepts whatever happens: a
/// failure to accept one connection is passed over.
pub open spec fn listener_reaction(
    address: Seq<char>,
    state: ListenerState,
    event: ListenerEventView,
) -> (ListenerState, ListenerActionView) {
    match state {
        ListenerState::Idle => match event {
            ListenerEventView::Bound => (
                ListenerState::Accepting,
                ListenerActionView::Confirm(confirmation(address)),
            ),
            ListenerEventView::BindFailed(reason) => (
                ListenerState::Idle,
                ListenerActionView::Refuse(reason),
            ),
            _ => (ListenerState::Idle, ListenerActionView::Nothing),
        },
        ListenerState::Accepting => match event {
            ListenerEventView::Accepted => (ListenerState::Accepting, ListenerActionView::Spawn),
            _ => (ListenerState::Accepting, ListenerActionView::Nothing),
        },
    }
}

/// The mathematical value of a [`Listener`].
pub struct ListenerView {
    pub address: Seq<char>,
    pub state: ListenerState,
}

/// The listener of one server.
#[derive(Debug)]
pub struct Listener {
    address: String,
    state: ListenerState,
}

impl View for Listener {
    type V = ListenerView;

    closed spec fn view(&self) -> ListenerView {
        ListenerView { address: self.address@, state: self.state }
    }
}

impl Listener {
    /// An idle listener for `address`.
    pub fn new(address: String) -> (listener: Listener)
        ensures
            listener@ == (ListenerView { address: address@, state: ListenerState::Idle }),
    {
        Listener { address, state: ListenerState::Idle }
    }

    /// An idle listener for [`DEFAULT_BIND_ADDRESS`].
    pub fn with_default_address() -> (listener: Listener)
        ensures
            listener@ == (ListenerView {
                address: DEFAULT_BIND_ADDRESS@,
                state: ListenerState::Idle,
            }),
    {
        Listener::new(DEFAULT_BIND_ADDRESS.to_owned())
    }

    /// The address that is to be bound.
    pub fn address(&self) -> (address: &str)
        ensures
            address@ == self@.address,
    {
        self.address.as_str()
    }

    /// Where the listener stands.
    pub fn state(&self) -> (state: ListenerState)
        ensures
            state == self@.state,
    {
        self.state
    }

    /// Takes one event: moves to the next state and says what to do.
    pub fn step(&mut self, event: ListenerEvent) -> (action: ListenerAction)
        ensures
            final(self)@.address == old(self)@.address,
            (final(self)@.state, action@) == listener_reaction(
                old(self)@.address,
                old(self)@.state,
                event@,
            ),
    {
        match self.state {
            ListenerState::Idle => match event {
                ListenerEvent::Bound => {
                    self.state = ListenerState::Accepting;
                    let text = CONFIRMATION_PREFIX.to_owned().concat(self.address.as_str());
                    ListenerAction::Confirm(text)
                },
                ListenerEvent::BindFailed(reason) => ListenerAction::Refuse(reason),
                _ => ListenerAction::Nothing,
            },
            ListenerState::Accepting => match event {
                ListenerEvent::Accepted => ListenerAction::Spawn,
                _ => ListenerAction::Nothing,
            },
        }
    }
}

/// A listener that accepts goes on accepting whatever is reported to it,
/// and hands on every connection that was accepted; and a start is
/// answered with an error exactly when the address could not be bound.
pub proof fn lemma_listener_keeps_accepting(
    address: Seq<char>,
    state: ListenerState,
    event: ListenerEventView,
)
    ensures
        state is Accepting ==> listener_reaction(address, state, event).0 is Accepting,
        state is Accepting ==> (listener_reaction(address, state, event).1 is Spawn
            <==> event is Accepted),
        listener_reaction(address, state, event).1 is Refuse <==> state is Idle
            && event is BindFailed,
        listener_reaction(address, state, event).1 is Refuse ==> listener_reaction(
            address,
            state,
            event,
        ).0 is Idle,
{
}

} // verus!
