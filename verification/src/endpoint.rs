//! One endpoint as a whole: the input source and the event loop with the
//! queue between them, and what holds of every history of the two.

use crate::event_loop::answers;
use crate::event_loop::command_of;
use crate::event_loop::next_state;
use crate::event_loop::CommandView;
use crate::event_loop::EventView;
use crate::event_loop::StateView;
use crate::message::fits;
use crate::message::wire_bytes;
use crate::queue::fresh;
use crate::queue::offer_of;
use crate::queue::poll_of;
use crate::queue::QueueView;
use crate::wire::greeting;
use vstd::prelude::*;

verus! {

/// An endpoint at one moment: its queue and the state of its loop.
pub struct Endpoint {
    pub queue: QueueView,
    pub state: StateView,
}

/// Something that happens at an endpoint.
pub enum Happening {
    /// The input source offers a read to the queue: a typed line, or `None`
    /// for a read that failed.
    Read(Option<Seq<char>>),
    /// The driver is to poll the input queue, finds it in the hands of the
    /// input source, and reports at once that there is no line.
    Busy,
    /// The driver carries out the loop's pending command and reports what
    /// came of it. Where the command is to poll the input queue, the queue
    /// itself decides what is reported, and the outcome named here counts
    /// for nothing.
    Drive(EventView),
}

/// An endpoint at startup, bound to `port`: nothing typed yet, and the
/// greeting about to go out.
pub open spec fn started(port: u16) -> Endpoint {
    Endpoint { queue: fresh(), state: StateView::Announcing { port } }
}

/// The event that the loop is given when the driver acts on `endpoint` and
/// the outside world answers with `outcome`.
pub open spec fn reported(endpoint: Endpoint, outcome: EventView) -> EventView {
    if command_of(endpoint.state) is PollInput {
        poll_of(endpoint.queue).1
    } else {
        outcome
    }
}

/// The endpoint after `happening`.
pub open spec fn happens(endpoint: Endpoint, happening: Happening) -> Endpoint {
    match happening {
        Happening::Read(read) => Endpoint {
            queue: offer_of(endpoint.queue, read).0,
            state: endpoint.state,
        },
        Happening::Busy => Endpoint {
            queue: endpoint.queue,
            state: next_state(endpoint.state, EventView::NoLine),
        },
        Happening::Drive(outcome) => Endpoint {
            queue: if command_of(endpoint.state) is PollInput {
                poll_of(endpoint.queue).0
            } else {
                endpoint.queue
            },
            state: next_state(endpoint.state, reported(endpoint, outcome)),
        },
    }
}

/// The endpoint after `history`.
pub open spec fn endpoint_after(endpoint: Endpoint, history: Seq<Happening>) -> Endpoint
    decreases history.len(),
{
    if history.len() == 0 {
        endpoint
    } else {
        happens(endpoint_after(endpoint, history.drop_last()), history.last())
    }
}

/// Whether `happening` can happen at `endpoint`: a read can be offered at
/// any time and brings a line of at least one byte, for as long as the
/// input lasts; the driver acts only while the loop runs, and reports only
/// what its command can bring.
pub open spec fn possible(endpoint: Endpoint, happening: Happening) -> bool {
    match happening {
        Happening::Read(read) => read matches Some(line) && wire_bytes(line).len() >= 1,
        Happening::Busy => command_of(endpoint.state) is PollInput,
        Happening::Drive(outcome) => answers(endpoint.state, reported(endpoint, outcome)),
    }
}

/// Whether each happening of `history` is possible when it happens.
pub open spec fn plausible(endpoint: Endpoint, history: Seq<Happening>) -> bool
    decreases history.len(),
{
    history.len() == 0 || (plausible(endpoint, history.drop_last()) && possible(
        endpoint_after(endpoint, history.drop_last()),
        history.last(),
    ))
}

/// The lines typed in the course of `history`, in order.
pub open spec fn lines_typed(history: Seq<Happening>) -> Seq<Seq<char>>
    decreases history.len(),
{
    if history.len() == 0 {
        Seq::empty()
    } else {
        match history.last() {
            Happening::Read(Some(line)) => lines_typed(history.drop_last()).push(line),
            _ => lines_typed(history.drop_last()),
        }
    }
}

/// The payloads that the loop asks to send up to the end of `history`, in
/// order, each counted once when its command is issued; a send that is
/// pending at the outset is the first of them.
pub open spec fn asked_to_send(endpoint: Endpoint, history: Seq<Happening>) -> Seq<Seq<u8>>
    decreases history.len(),
{
    if history.len() == 0 {
        match command_of(endpoint.state) {
            CommandView::Send(payload) => seq![payload],
            _ => Seq::empty(),
        }
    } else {
        let earlier = asked_to_send(endpoint, history.drop_last());
        let before = endpoint_after(endpoint, history.drop_last());
        match (history.last(), command_of(happens(before, history.last()).state)) {
            (Happening::Drive(outcome), CommandView::Send(payload)) => if answers(
                before.state,
                reported(before, outcome),
            ) {
                earlier.push(payload)
            } else {
                earlier
            },
            _ => earlier,
        }
    }
}

/// The payloads of `lines`, one for one.
pub open spec fn payloads(lines: Seq<Seq<char>>) -> Seq<Seq<u8>> {
    lines.map_values(|line: Seq<char>| wire_bytes(line))
}

/// At every moment of every plausible history of an endpoint, the
/// datagrams that the loop has asked to send, followed by the payloads of
/// the lines still waiting in the queue, are the greeting, followed by the
/// payloads of the typed lines of at most 255 bytes: each once, unmodified,
/// in the order typed. No typed line of more than 255 bytes is among them,
/// and none keeps a later line from being sent.
pub proof fn typed_lines_go_out(port: u16, history: Seq<Happening>)
    requires
        plausible(started(port), history),
    ensures
        asked_to_send(started(port), history) + payloads(
            endpoint_after(started(port), history).queue.pending,
        ) == seq![wire_bytes(greeting())] + payloads(
            lines_typed(history).filter(|line: Seq<char>| fits(line)),
        ),
        !endpoint_after(started(port), history).queue.closed,
    decreases history.len(),
{
    reveal(Seq::filter);
    let start = started(port);
    if history.len() == 0 {
        assert(payloads(start.queue.pending) =~= Seq::<Seq<u8>>::empty());
        assert(payloads(lines_typed(history).filter(|line: Seq<char>| fits(line)))
            =~= Seq::<Seq<u8>>::empty());
    } else {
        let earlier = history.drop_last();
        typed_lines_go_out(port, earlier);
        let before = endpoint_after(start, earlier);
        let sent = asked_to_send(start, earlier);
        let waiting = payloads(before.queue.pending);
        let kept = lines_typed(earlier).filter(|line: Seq<char>| fits(line));
        match history.last() {
            Happening::Read(Some(line)) => {
                assert(lines_typed(history).drop_last() == lines_typed(earlier));
                if fits(line) {
                    // The line joins the queue and the typed lines that fit.
                    let payload = wire_bytes(line);
                    assert(payloads(before.queue.pending.push(line)) =~= waiting.push(payload));
                    assert(payloads(kept.push(line)) =~= payloads(kept).push(payload));
                    assert(sent + waiting.push(payload) =~= (sent + waiting).push(payload));
                }
            },
            Happening::Drive(_) => {
                if command_of(before.state) is PollInput && before.queue.pending.len() > 0 {
                    // The oldest line leaves the queue and is asked to be sent.
                    let payload = wire_bytes(before.queue.pending.first());
                    assert(waiting =~= seq![payload] + payloads(before.queue.pending.drop_first()));
                    assert(sent.push(payload) + payloads(before.queue.pending.drop_first()) =~= sent
                        + waiting);
                }
            },
            _ => {},
        }
    }
}

} // verus!
