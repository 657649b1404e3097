//! The duplex event loop: typed lines go out to the peer, arriving
//! datagrams go up to the screen, and neither waits for the other.
//!
//! The loop itself performs no I/O. It is a state machine: its state says
//! which `Command` the driver has to carry out next, and the driver reports
//! what came of it as an `Event`. One round of the loop polls the input
//! queue once, sends a line if there was one, polls the socket once, shows a
//! datagram if there was one, and pauses.

use crate::message::wire_bytes;
use crate::message::Message;
use crate::message::MAX_MESSAGE_LEN;
use crate::screen::banner;
use crate::screen::received_line;
use crate::screen::sent_line;
use crate::screen::show_banner;
use crate::screen::show_received;
use crate::screen::show_sent;
use crate::wire::announcement;
use crate::wire::decode_datagram;
use crate::wire::decoded;
use crate::wire::greeting;
use vstd::prelude::*;

verus! {

/// The pause at the end of each round, in milliseconds.
pub const PAUSE_MILLIS: u64 = 50;

/// A condition that ends the loop for good.
#[derive(Clone, Copy, Debug, PartialEq, Eq, Structural)]
pub enum Fatal {
    /// The producer of the input queue is gone.
    InputClosed,
    /// The transport refused to send a datagram.
    SendFailed,
    /// The transport failed to receive, for another reason than having
    /// nothing to deliver.
    ReceiveFailed,
    /// A datagram arrived that is not valid UTF-8.
    InvalidUtf8,
}

/// The line that reports `fatal` to the operator.
pub open spec fn diagnostic_of(fatal: Fatal) -> Seq<char> {
    match fatal {
        Fatal::InputClosed => "!! Stdin channel disconnected"@,
        Fatal::SendFailed => "!! Cannot send"@,
        Fatal::ReceiveFailed => "!! Cannot receive"@,
        Fatal::InvalidUtf8 => "!! Invalid UTF-8 sequence"@,
    }
}

impl Fatal {
    /// The line that reports the condition to the operator.
    pub fn diagnostic(&self) -> (line: &'static str)
        ensures
            line@ == diagnostic_of(*self),
    {
        match self {
            Fatal::InputClosed => "!! Stdin channel disconnected",
            Fatal::SendFailed => "!! Cannot send",
            Fatal::ReceiveFailed => "!! Cannot receive",
            Fatal::InvalidUtf8 => "!! Invalid UTF-8 sequence",
        }
    }
}

/// Where the loop stands.
#[derive(Debug, PartialEq, Eq)]
pub enum LoopState {
    /// Started on an endpoint bound to `port`: the greeting has to go out.
    /// Nothing is awaited from the peer in return.
    Announcing { port: u16 },
    /// At the top of a round: the input queue has to be polled.
    PollingInput,
    /// A line was taken from the queue and has to go out.
    Sending(Message),
    /// The socket has to be polled.
    PollingSocket,
    /// At the end of a round: the loop has to rest.
    Pausing,
    /// Stopped for good.
    Halted(Fatal),
}

/// What the driver reports back to the loop.
#[derive(Debug, PartialEq, Eq)]
pub enum Event {
    /// The input queue held this line.
    Line(Message),
    /// The input queue was empty.
    NoLine,
    /// The input queue is empty and its producer is gone.
    InputClosed,
    /// The transport took the datagram.
    Sent,
    /// The transport refused the datagram.
    SendFailed,
    /// A datagram with these bytes arrived.
    Datagram(Vec<u8>),
    /// No datagram was waiting.
    NoDatagram,
    /// The transport failed to receive.
    ReceiveFailed,
    /// The pause is over.
    Woke,
}

/// What the loop asks of the driver.
#[derive(Debug, PartialEq, Eq)]
pub enum Command {
    /// Poll the input queue once, without waiting.
    PollInput,
    /// Send these bytes to the peer as one datagram, once.
    Send(Vec<u8>),
    /// Poll the socket once, without waiting.
    PollSocket,
    /// Rest for this many milliseconds.
    Sleep(u64),
    /// Report the condition and stop.
    Halt(Fatal),
}

/// A loop state as a mathematical value.
pub enum StateView {
    Announcing { port: u16 },
    PollingInput,
    Sending(Seq<char>),
    PollingSocket,
    Pausing,
    Halted(Fatal),
}

/// An event as a mathematical value.
pub enum EventView {
    Line(Seq<char>),
    NoLine,
    InputClosed,
    Sent,
    SendFailed,
    Datagram(Seq<u8>),
    NoDatagram,
    ReceiveFailed,
    Woke,
}

/// A command as a mathematical value.
pub enum CommandView {
    PollInput,
    Send(Seq<u8>),
    PollSocket,
    Sleep(u64),
    Halt(Fatal),
}

impl View for LoopState {
    type V = StateView;

    open spec fn view(&self) -> StateView {
        match self {
            LoopState::Announcing { port } => StateView::Announcing { port: *port },
            LoopState::PollingInput => StateView::PollingInput,
            LoopState::Sending(message) => StateView::Sending(message@),
            LoopState::PollingSocket => StateView::PollingSocket,
            LoopState::Pausing => StateView::Pausing,
            LoopState::Halted(fatal) => StateView::Halted(*fatal),
        }
    }
}

impl View for Event {
    type V = EventView;

    open spec fn view(&self) -> EventView {
        match self {
            Event::Line(message) => EventView::Line(message@),
            Event::NoLine => EventView::NoLine,
            Event::InputClosed => EventView::InputClosed,
            Event::Sent => EventView::Sent,
            Event::SendFailed => EventView::SendFailed,
            Event::Datagram(bytes) => EventView::Datagram(bytes@),
            Event::NoDatagram => EventView::NoDatagram,
            Event::ReceiveFailed => EventView::ReceiveFailed,
            Event::Woke => EventView::Woke,
        }
    }
}

impl View for Command {
    type V = CommandView;

    open spec fn view(&self) -> CommandView {
        match self {
            Command::PollInput => CommandView::PollInput,
            Command::Send(bytes) => CommandView::Send(bytes@),
            Command::PollSocket => CommandView::PollSocket,
            Command::Sleep(millis) => CommandView::Sleep(*millis),
            Command::Halt(fatal) => CommandView::Halt(*fatal),
        }
    }
}

/// The command that is pending in `state`.
pub open spec fn command_of(state: StateView) -> CommandView {
    match state {
        StateView::Announcing { .. } => CommandView::Send(wire_bytes(greeting())),
        StateView::PollingInput => CommandView::PollInput,
        StateView::Sending(text) => CommandView::Send(wire_bytes(text)),
        StateView::PollingSocket => CommandView::PollSocket,
        StateView::Pausing => CommandView::Sleep(PAUSE_MILLIS),
        StateView::Halted(fatal) => CommandView::Halt(fatal),
    }
}

/// Whether `event` is a possible outcome of the command pending in `state`.
pub open spec fn answers(state: StateView, event: EventView) -> bool {
    match state {
        StateView::Announcing { .. } | StateView::Sending(_) => {
            event is Sent || event is SendFailed
        },
        StateView::PollingInput => event is Line || event is NoLine || event is InputClosed,
        StateView::PollingSocket => {
            event is Datagram || event is NoDatagram || event is ReceiveFailed
        },
        StateView::Pausing => event is Woke,
        StateView::Halted(_) => false,
    }
}

/// The state that follows `state` on `event`. An event that does not answer
/// the pending command changes nothing.
pub open spec fn next_state(state: StateView, event: EventView) -> StateView {
    match (state, event) {
        (StateView::Announcing { .. }, EventView::Sent) => StateView::PollingInput,
        (StateView::Announcing { .. }, EventView::SendFailed) => StateView::Halted(
            Fatal::SendFailed,
        ),
        (StateView::PollingInput, EventView::Line(text)) => StateView::Sending(text),
        (StateView::PollingInput, EventView::NoLine) => StateView::PollingSocket,
        (StateView::PollingInput, EventView::InputClosed) => StateView::Halted(
            Fatal::InputClosed,
        ),
        (StateView::Sending(_), EventView::Sent) => StateView::PollingSocket,
        (StateView::Sending(_), EventView::SendFailed) => StateView::Halted(Fatal::SendFailed),
        (StateView::PollingSocket, EventView::Datagram(bytes)) => {
            if decoded(bytes) is Some {
                StateView::Pausing
            } else {
                StateView::Halted(Fatal::InvalidUtf8)
            }
        },
        (StateView::PollingSocket, EventView::NoDatagram) => StateView::Pausing,
        (StateView::PollingSocket, EventView::ReceiveFailed) => StateView::Halted(
            Fatal::ReceiveFailed,
        ),
        (StateView::Pausing, EventView::Woke) => StateView::PollingInput,
        _ => state,
    }
}

/// The text that goes to the screen when `event` arrives in `state`, if
/// any: the banner once the greeting is out, a line once it is sent, the
/// text of a well-formed datagram.
pub open spec fn shown(state: StateView, event: EventView) -> Option<Seq<char>> {
    match (state, event) {
        (StateView::Announcing { port }, EventView::Sent) => Some(banner(port)),
        (StateView::Sending(text), EventView::Sent) => Some(sent_line(text)),
        (StateView::PollingSocket, EventView::Datagram(bytes)) => match decoded(bytes) {
            Some(text) => Some(received_line(text)),
            None => None,
        },
        _ => None,
    }
}

/// The outcome of one step of the loop.
#[derive(Debug, PartialEq, Eq)]
pub struct Step {
    /// The state that the loop is in now.
    pub next: LoopState,
    /// Text to write to the screen as it stands, if there is any.
    pub display: Option<String>,
}

impl LoopState {
    /// The state of a loop that starts on an endpoint bound to `port`.
    pub fn start(port: u16) -> (state: LoopState)
        ensures
            state@ == (StateView::Announcing { port }),
    {
        LoopState::Announcing { port }
    }

    /// Whether the loop has stopped for good.
    pub fn is_halted(&self) -> (halted: bool)
        ensures
            halted <==> self@ is Halted,
    {
        match self {
            LoopState::Halted(_) => true,
            _ => false,
        }
    }

    /// What the driver has to do next. A datagram that it is asked to send
    /// never has more than `MAX_MESSAGE_LEN` bytes, and never none.
    pub fn command(&self) -> (command: Command)
        ensures
            command@ == command_of(self@),
            command matches Command::Send(payload) ==> 1 <= payload.len() <= MAX_MESSAGE_LEN,
    {
        match self {
            LoopState::Announcing { .. } => Command::Send(announcement()),
            LoopState::PollingInput => Command::PollInput,
            LoopState::Sending(message) => Command::Send(message.payload()),
            LoopState::PollingSocket => Command::PollSocket,
            LoopState::Pausing => Command::Sleep(PAUSE_MILLIS),
            LoopState::Halted(fatal) => Command::Halt(*fatal),
        }
    }

    /// Takes in what came of the pending command, and says where the loop
    /// stands now and what to show.
    pub fn step(self, event: Event) -> (step: Step)
        ensures
            step.next@ == next_state(self@, event@),
            match step.display {
                Some(text) => shown(self@, event@) == Some(text@),
                None => shown(self@, event@) is None,
            },
    {
        match self {
            LoopState::Announcing { port } => match event {
                Event::Sent => Step {
                    next: LoopState::PollingInput,
                    display: Some(show_banner(port)),
                },
                Event::SendFailed => Step {
                    next: LoopState::Halted(Fatal::SendFailed),
                    display: None,
                },
                _ => Step { next: LoopState::Announcing { port }, display: None },
            },
            LoopState::PollingInput => match event {
                Event::Line(message) => Step { next: LoopState::Sending(message), display: None },
                Event::NoLine => Step { next: LoopState::PollingSocket, display: None },
                Event::InputClosed => Step {
                    next: LoopState::Halted(Fatal::InputClosed),
                    display: None,
                },
                _ => Step { next: LoopState::PollingInput, display: None },
            },
            LoopState::Sending(message) => match event {
                Event::Sent => Step {
                    next: LoopState::PollingSocket,
                    display: Some(show_sent(message.as_str())),
                },
                Event::SendFailed => Step {
                    next: LoopState::Halted(Fatal::SendFailed),
                    display: None,
                },
                _ => Step { next: LoopState::Sending(message), display: None },
            },
            LoopState::PollingSocket => match event {
                Event::Datagram(bytes) => match decode_datagram(bytes) {
                    Some(text) => Step {
                        next: LoopState::Pausing,
                        display: Some(show_received(text.as_str())),
                    },
                    None => Step { next: LoopState::Halted(Fatal::InvalidUtf8), display: None },
                },
                Event::NoDatagram => Step { next: LoopState::Pausing, display: None },
                Event::ReceiveFailed => Step {
                    next: LoopState::Halted(Fatal::ReceiveFailed),
                    display: None,
                },
                _ => Step { next: LoopState::PollingSocket, display: None },
            },
            LoopState::Pausing => match event {
                Event::Woke => Step { next: LoopState::PollingInput, display: None },
                _ => Step { next: LoopState::Pausing, display: None },
            },
            LoopState::Halted(fatal) => Step { next: LoopState::Halted(fatal), display: None },
        }
    }
}

} // verus!
