//! The handler of one connection: a state machine from what the transport
//! reports to what is to be done about it.

use crate::command::{CommandView, DecodeError, SceneCommand};
use crate::decode::{decode, decoded};
use crate::frame::{payload, Frame, FrameView};
use crate::json::parsed_json;
use vstd::prelude::*;

verus! {

/// The name under which every command is published.
pub const SCENE_CHANGE_EVENT: &'static str = "scene-change";

/// Where a connection stands.
#[derive(Clone, Copy, Debug, PartialEq, Eq, Structural)]
pub enum ConnectionState {
    /// Accepted, and not yet upgraded to the message protocol.
    Handshaking,
    /// Upgraded: messages are read and decoded.
    Open,
    /// Over, for good.
    Closed,
}

/// What the transport reports of a connection.
#[derive(Debug, PartialEq, Eq)]
pub enum Event {
    /// The upgrade to the message protocol succeeded.
    Upgraded,
    /// The upgrade was rejected, or the peer's request was malformed.
    UpgradeFailed,
    /// A message arrived.
    Received(Frame),
    /// Reading failed.
    ReadFailed,
    /// The peer closed the connection: no message will follow.
    Ended,
    /// The sink did not take the command that was last published.
    PublishFailed,
}

/// The mathematical value of an [`Event`].
pub enum EventView {
    Upgraded,
    UpgradeFailed,
    Received(FrameView),
    ReadFailed,
    Ended,
    PublishFailed,
}

impl View for Event {
    type V = EventView;

    open spec fn view(&self) -> EventView {
        match self {
            Event::Upgraded => EventView::Upgraded,
            Event::UpgradeFailed => EventView::UpgradeFailed,
            Event::Received(frame) => EventView::Received(frame@),
            Event::ReadFailed => EventView::ReadFailed,
            Event::Ended => EventView::Ended,
            Event::PublishFailed => EventView::PublishFailed,
        }
    }
}

/// What an event means to the handler, once the payload of a message has
/// been decoded.
#[derive(Debug, PartialEq, Eq)]
pub enum Signal {
    Upgraded,
    UpgradeFailed,
    /// A message that is a command.
    Command(SceneCommand),
    /// A message that is none: a control message, or a payload that does
    /// not decode.
    Ignored,
    ReadFailed,
    Ended,
    PublishFailed,
}

/// The mathematical value of a [`Signal`].
pub enum SignalView {
    Upgraded,
    UpgradeFailed,
    Command(CommandView),
    Ignored,
    ReadFailed,
    Ended,
    PublishFailed,
}

impl View for Signal {
    type V = SignalView;

    open spec fn view(&self) -> SignalView {
        match self {
            Signal::Upgraded => SignalView::Upgraded,
            Signal::UpgradeFailed => SignalView::UpgradeFailed,
            Signal::Command(command) => SignalView::Command(command@),
            Signal::Ignored => SignalView::Ignored,
            Signal::ReadFailed => SignalView::ReadFailed,
            Signal::Ended => SignalView::Ended,
            Signal::PublishFailed => SignalView::PublishFailed,
        }
    }
}

/// What the handler asks of whoever drives it.
#[derive(Debug, PartialEq, Eq)]
pub enum Action {
    /// Wait for the next event.
    Continue,
    /// Publish this command once under [`SCENE_CHANGE_EVENT`], then wait for
    /// the next event. Where the sink does not take it, that is an event.
    Publish(SceneCommand),
    /// Release the connection and read no more.
    Stop,
}

/// The mathematical value of an [`Action`].
pub enum ActionView {
    Continue,
    Publish(CommandView),
    Stop,
}

impl View for Action {
    type V = ActionView;

    open spec fn view(&self) -> ActionView {
        match self {
            Action::Continue => ActionView::Continue,
            Action::Publish(command) => ActionView::Publish(command@),
            Action::Stop => ActionView::Stop,
        }
    }
}

/// The signal that a message gives: its command, where it carries a text
/// that decodes to one.
pub open spec fn message_signal(frame: FrameView) -> SignalView {
    match payload(frame) {
        Some(text) => match decoded(parsed_json(text)) {
            Ok(command) => SignalView::Command(command),
            Err(_) => SignalView::Ignored,
        },
        None => SignalView::Ignored,
    }
}

/// The signal that an event gives.
pub open spec fn signal_of(event: EventView) -> SignalView {
    match event {
        EventView::Upgraded => SignalView::Upgraded,
        EventView::UpgradeFailed => SignalView::UpgradeFailed,
        EventView::Received(frame) => message_signal(frame),
        EventView::ReadFailed => SignalView::ReadFailed,
        EventView::Ended => SignalView::Ended,
        EventView::PublishFailed => SignalView::PublishFailed,
    }
}

/// Whether a signal tells that the connection is lost. That the sink did
/// not take a command does not.
pub open spec fn is_failure(signal: SignalView) -> bool {
    signal is UpgradeFailed || signal is ReadFailed || signal is Ended
}

/// The state that follows `state` on `signal`. A closed connection stays
/// closed, and a failure closes any other; the upgrade opens a connection;
/// nothing else changes the state.
pub open spec fn next_state(state: ConnectionState, signal: SignalView) -> ConnectionState {
    if state is Closed || is_failure(signal) {
        ConnectionState::Closed
    } else if signal is Upgraded {
        ConnectionState::Open
    } else {
        state
    }
}

/// The action that goes with the step from `state` on `signal`: to stop
/// where the connection is closed after it, to publish where an open
/// connection has received a command, and else to go on.
pub open spec fn action_on(state: ConnectionState, signal: SignalView) -> ActionView {
    if next_state(state, signal) is Closed {
        ActionView::Stop
    } else if state is Open && signal is Command {
        ActionView::Publish(signal->Command_0)
    } else {
        ActionView::Continue
    }
}

/// The transition of the handler: the state that follows `state` on
/// `signal`, and the action that goes with the step.
pub open spec fn reaction(state: ConnectionState, signal: SignalView) -> (
    ConnectionState,
    ActionView,
) {
    (next_state(state, signal), action_on(state, signal))
}

/// Decodes the payload of a message, where the event is one.
pub fn interpret(event: Event) -> (signal: Signal)
    ensures
        signal@ == signal_of(event@),
{
    match event {
        Event::Upgraded => Signal::Upgraded,
        Event::UpgradeFailed => Signal::UpgradeFailed,
        Event::Received(frame) => match frame.text() {
            Some(text) => match decode(text) {
                Ok(command) => Signal::Command(command),
                Err(_) => Signal::Ignored,
            },
            None => Signal::Ignored,
        },
        Event::ReadFailed => Signal::ReadFailed,
        Event::Ended => Signal::Ended,
        Event::PublishFailed => Signal::PublishFailed,
    }
}

/// The handler of one connection. It owns nothing but its own state.
#[derive(Debug)]
pub struct Connection {
    state: ConnectionState,
}

impl View for Connection {
    type V = ConnectionState;

    closed spec fn view(&self) -> ConnectionState {
        self.state
    }
}

impl Connection {
    /// The handler of a connection that was just accepted.
    pub fn new() -> (connection: Connection)
        ensures
            connection@ == ConnectionState::Handshaking,
    {
        Connection { state: ConnectionState::Handshaking }
    }

    /// Where the connection stands.
    pub fn state(&self) -> (state: ConnectionState)
        ensures
            state == self@,
    {
        self.state
    }

    /// Whether the connection is still to be driven.
    pub fn is_live(&self) -> (live: bool)
        ensures
            live == !(self@ is Closed),
    {
        match self.state {
            ConnectionState::Closed => false,
            _ => true,
        }
    }

    /// Takes one signal: moves to the next state and says what to do.
    pub fn react(&mut self, signal: Signal) -> (action: Action)
        ensures
            (final(self)@, action@) == reaction(old(self)@, signal@),
    {
        match self.state {
            ConnectionState::Closed => Action::Stop,
            ConnectionState::Handshaking => match signal {
                Signal::Upgraded => {
                    self.state = ConnectionState::Open;
                    Action::Continue
                },
                Signal::Command(_) | Signal::Ignored | Signal::PublishFailed => Action::Continue,
                _ => {
                    self.state = ConnectionState::Closed;
                    Action::Stop
                },
            },
            ConnectionState::Open => match signal {
                Signal::Command(command) => Action::Publish(command),
                Signal::Upgraded | Signal::Ignored | Signal::PublishFailed => Action::Continue,
                _ => {
                    self.state = ConnectionState::Closed;
                    Action::Stop
                },
            },
        }
    }

    /// Takes one event: decodes the message, where it is one, and reacts.
    pub fn handle(&mut self, event: Event) -> (action: Action)
        ensures
            (final(self)@, action@) == reaction(old(self)@, signal_of(event@)),
    {
        let signal = interpret(event);
        self.react(signal)
    }
}

/// A command is published exactly when an open connection receives a
/// message whose payload decodes, and it is the command decoded: nothing
/// else is ever published.
pub proof fn lemma_published_exactly_when_decoded(
    state: ConnectionState,
    event: EventView,
    command: CommandView,
)
    ensures
        reaction(state, signal_of(event)).1 == ActionView::Publish(command) <==> ({
            &&& state is Open
            &&& event matches EventView::Received(frame)
            &&& payload(frame) matches Some(text)
            &&& decoded(parsed_json(text)) == Ok::<CommandView, DecodeError>(command)
        }),
{
}

/// A message that is no command is passed over: nothing is published, and
/// the connection stands where it stood, so that an open one stays open
/// for the next message.
pub proof fn lemma_undecodable_message_is_passed_over(state: ConnectionState, frame: FrameView)
    requires
        payload(frame) matches Some(text) ==> decoded(parsed_json(text)) is Err,
    ensures
        reaction(state, signal_of(EventView::Received(frame))).0 == state,
        !(reaction(state, signal_of(EventView::Received(frame))).1 is Publish),
        state is Open ==> reaction(state, signal_of(EventView::Received(frame))).1 is Continue,
{
}

/// That the sink did not take a command costs the connection nothing: it
/// stands where it stood, and the command is not published again.
pub proof fn lemma_sink_failure_is_not_fatal(state: ConnectionState)
    ensures
        reaction(state, SignalView::PublishFailed).0 == state,
        !(state is Closed) ==> reaction(state, SignalView::PublishFailed).1 is Continue,
{
}

/// A closed connection stays closed and publishes nothing, whatever it is
/// given.
pub proof fn lemma_closed_is_terminal(signal: SignalView)
    ensures
        reaction(ConnectionState::Closed, signal) == (ConnectionState::Closed, ActionView::Stop),
{
}

} // verus!
