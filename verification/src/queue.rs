//! The one-way queue from the input source to the event loop.
//!
//! The input source is the only producer and the event loop the only
//! consumer. The queue has no bound; what came first leaves first; and
//! polling it never waits: an empty queue answers at once.

use crate::event_loop::Event;
use crate::event_loop::EventView;
use crate::input::intake_of;
use crate::input::read_text;
use crate::input::take_line;
use crate::input::Intake;
use crate::input::IntakeView;
use crate::message::wire_bytes;
use crate::message::Message;
use crate::message::MAX_MESSAGE_LEN;
use std::collections::VecDeque;
use vstd::prelude::*;

verus! {

/// The lines on their way from the operator to the event loop.
#[derive(Debug)]
pub struct InputQueue {
    /// The accepted lines that the loop has not taken yet, oldest first.
    pending: VecDeque<Message>,
    /// Whether the input source has stopped.
    closed: bool,
}

/// A queue as a mathematical value.
pub struct QueueView {
    /// The texts of the pending lines, oldest first.
    pub pending: Seq<Seq<char>>,
    /// Whether the input source has stopped.
    pub closed: bool,
}

impl View for InputQueue {
    type V = QueueView;

    closed spec fn view(&self) -> QueueView {
        QueueView {
            pending: self.pending@.map_values(|message: Message| message@),
            closed: self.closed,
        }
    }
}

/// What became of a read that was offered to the queue.
#[derive(Clone, Copy, Debug, PartialEq, Eq, Structural)]
pub enum Offer {
    /// The line is in the queue.
    Queued,
    /// The line was too long and is dropped: the operator is to be warned,
    /// and reading goes on.
    Discarded,
    /// The input is gone: the input source has stopped, or stops now.
    Stopped,
}

/// An empty queue whose input source is at work.
pub open spec fn fresh() -> QueueView {
    QueueView { pending: Seq::empty(), closed: false }
}

/// The queue after `read` is offered to it, and what became of the read.
/// Once the input source has stopped, the queue takes nothing more.
pub open spec fn offer_of(queue: QueueView, read: Option<Seq<char>>) -> (QueueView, Offer) {
    if queue.closed {
        (queue, Offer::Stopped)
    } else {
        match intake_of(read) {
            IntakeView::Forward(line) => (
                QueueView { pending: queue.pending.push(line), closed: false },
                Offer::Queued,
            ),
            IntakeView::Discard => (queue, Offer::Discarded),
            IntakeView::Stop => (
                QueueView { pending: queue.pending, closed: true },
                Offer::Stopped,
            ),
        }
    }
}

/// The queue after one poll, and what the poll reports: the oldest pending
/// line if there is one; else that the input is closed, if the input source
/// has stopped; else that there is no line.
pub open spec fn poll_of(queue: QueueView) -> (QueueView, EventView) {
    if queue.pending.len() > 0 {
        (
            QueueView { pending: queue.pending.drop_first(), closed: queue.closed },
            EventView::Line(queue.pending.first()),
        )
    } else if queue.closed {
        (queue, EventView::InputClosed)
    } else {
        (queue, EventView::NoLine)
    }
}

impl InputQueue {
    /// An empty queue whose input source is at work.
    pub fn new() -> (queue: InputQueue)
        ensures
            queue@ == fresh(),
    {
        let queue = InputQueue { pending: VecDeque::new(), closed: false };
        assert(queue@.pending =~= Seq::<Seq<char>>::empty());
        queue
    }

    /// The number of lines that wait to be taken.
    pub fn len(&self) -> (n: usize)
        ensures
            n == self@.pending.len(),
    {
        self.pending.len()
    }

    /// Whether the input source has stopped.
    pub fn is_closed(&self) -> (closed: bool)
        ensures
            closed == self@.closed,
    {
        self.closed
    }

    /// The producer's side: takes in one read, `None` for a read that
    /// failed, else the line as it was read. A line that fits goes to the
    /// back of the queue; a line that is too long changes nothing; the end
    /// of the input or a failed read closes the queue.
    pub fn offer(&mut self, read: Option<String>) -> (offer: Offer)
        ensures
            (final(self)@, offer) == offer_of(old(self)@, read_text(read)),
    {
        if self.closed {
            return Offer::Stopped;
        }
        match take_line(read) {
            Intake::Forward(message) => {
                self.pending.push_back(message);
                assert(self@.pending =~= old(self)@.pending.push(message@));
                Offer::Queued
            },
            Intake::Discard => Offer::Discarded,
            Intake::Stop => {
                self.closed = true;
                Offer::Stopped
            },
        }
    }

    /// The consumer's side: takes the oldest line out of the queue, if
    /// there is one, and never waits for one.
    pub fn poll(&mut self) -> (event: Event)
        ensures
            (final(self)@, event@) == poll_of(old(self)@),
    {
        match self.pending.pop_front() {
            Some(message) => {
                assert(self@.pending =~= old(self)@.pending.drop_first());
                Event::Line(message)
            },
            None => {
                if self.closed {
                    Event::InputClosed
                } else {
                    Event::NoLine
                }
            },
        }
    }
}

/// One use of the queue: a read that the input source offers, `None` for a
/// read that failed, or a poll by the event loop.
pub enum QueueUse {
    Offer(Option<Seq<char>>),
    Poll,
}

/// The queue that `uses` make of `queue`, one after the other.
pub open spec fn queue_after(queue: QueueView, uses: Seq<QueueUse>) -> QueueView
    decreases uses.len(),
{
    if uses.len() == 0 {
        queue
    } else {
        let before = queue_after(queue, uses.drop_last());
        match uses.last() {
            QueueUse::Offer(read) => offer_of(before, read).0,
            QueueUse::Poll => poll_of(before).0,
        }
    }
}

/// The lines that the offers among `uses` put into the queue, in order.
pub open spec fn put_in(queue: QueueView, uses: Seq<QueueUse>) -> Seq<Seq<char>>
    decreases uses.len(),
{
    if uses.len() == 0 {
        Seq::empty()
    } else {
        let earlier = put_in(queue, uses.drop_last());
        let before = queue_after(queue, uses.drop_last());
        match uses.last() {
            QueueUse::Offer(read) => if offer_of(before, read).1 == Offer::Queued {
                earlier.push(intake_of(read)->Forward_0)
            } else {
                earlier
            },
            QueueUse::Poll => earlier,
        }
    }
}

/// The lines that the polls among `uses` hand to the event loop, in order.
pub open spec fn handed_out(queue: QueueView, uses: Seq<QueueUse>) -> Seq<Seq<char>>
    decreases uses.len(),
{
    if uses.len() == 0 {
        Seq::empty()
    } else {
        let earlier = handed_out(queue, uses.drop_last());
        let before = queue_after(queue, uses.drop_last());
        match (uses.last(), poll_of(before).1) {
            (QueueUse::Poll, EventView::Line(line)) => earlier.push(line),
            _ => earlier,
        }
    }
}

/// A line of more than 255 bytes never enters the queue: offered while the
/// input source is at work, it leaves the queue as it was, open for the
/// lines that follow, and is reported as discarded, which is the cue for
/// the warning.
pub proof fn long_line_is_dropped(queue: QueueView, line: Seq<char>)
    requires
        !queue.closed,
        wire_bytes(line).len() > MAX_MESSAGE_LEN,
    ensures
        offer_of(queue, Some(line)) == (queue, Offer::Discarded),
{
}

/// The queue is first in, first out, and loses nothing: whatever the
/// input source and the loop do with it and in whatever order, the lines
/// handed to the loop so far, followed by those still waiting, are the
/// lines that were waiting at the start, followed by those put in since.
pub proof fn queue_keeps_order(queue: QueueView, uses: Seq<QueueUse>)
    ensures
        handed_out(queue, uses) + queue_after(queue, uses).pending == queue.pending + put_in(
            queue,
            uses,
        ),
    decreases uses.len(),
{
    if uses.len() > 0 {
        queue_keeps_order(queue, uses.drop_last());
        let before = queue_after(queue, uses.drop_last());
        match uses.last() {
            QueueUse::Offer(read) => {
                if offer_of(before, read).1 == Offer::Queued {
                    let line = intake_of(read)->Forward_0;
                    let out = handed_out(queue, uses.drop_last());
                    let put = put_in(queue, uses.drop_last());
                    assert(out + before.pending.push(line) == (out + before.pending).push(line));
                    assert(queue.pending + put.push(line) == (queue.pending + put).push(line));
                }
            },
            QueueUse::Poll => {
                if before.pending.len() > 0 {
                    let out = handed_out(queue, uses.drop_last());
                    assert(out.push(before.pending.first()) + before.pending.drop_first() == out
                        + before.pending);
                }
            },
        }
    }
}

} // verus!
