//! The input source: what becomes of each line that the operator types.
//!
//! Lines are read one at a time, away from the event loop. A line that fits
//! goes into the queue to the loop; a line that is too long is dropped with
//! a warning, and reading goes on; when reading fails or the input has
//! ended, the input source stops.

use crate::message::refusal;
use crate::message::Message;
use crate::message::MessageError;
use vstd::prelude::*;

verus! {

/// What to do after one attempt to read a line.
#[derive(Debug, PartialEq, Eq)]
pub enum Intake {
    /// Put this message at the back of the queue, and read on.
    Forward(Message),
    /// Warn the operator that the line was too long, and read on.
    Discard,
    /// Report that the input is gone, and stop reading.
    Stop,
}

/// An intake as a mathematical value.
pub enum IntakeView {
    Forward(Seq<char>),
    Discard,
    Stop,
}

impl View for Intake {
    type V = IntakeView;

    open spec fn view(&self) -> IntakeView {
        match self {
            Intake::Forward(message) => IntakeView::Forward(message@),
            Intake::Discard => IntakeView::Discard,
            Intake::Stop => IntakeView::Stop,
        }
    }
}

/// What becomes of one read. `None` stands for a read that failed; a read
/// that brought no bytes at all means that the input has ended. Every other
/// line is forwarded as it stands, line terminator included, unless it is
/// too long.
pub open spec fn intake_of(read: Option<Seq<char>>) -> IntakeView {
    match read {
        None => IntakeView::Stop,
        Some(line) => match refusal(line) {
            None => IntakeView::Forward(line),
            Some(MessageError::TooLong) => IntakeView::Discard,
            Some(MessageError::Empty) => IntakeView::Stop,
        },
    }
}

/// A read as a mathematical value: the text of the line, if there is one.
pub open spec fn read_text(read: Option<String>) -> Option<Seq<char>> {
    match read {
        Some(line) => Some(line@),
        None => None,
    }
}

/// Decides what becomes of one read: `None` for a read that failed, else
/// the line as it was read, line terminator included.
pub fn take_line(read: Option<String>) -> (intake: Intake)
    ensures
        intake@ == intake_of(read_text(read)),
{
    match read {
        None => Intake::Stop,
        Some(line) => match Message::new(line) {
            Ok(message) => Intake::Forward(message),
            Err(MessageError::TooLong) => Intake::Discard,
            Err(MessageError::Empty) => Intake::Stop,
        },
    }
}

} // verus!
