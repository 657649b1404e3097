//! What holds of a whole run of the event loop, and of two endpoints that
//! talk to each other.
//!
//! A run is a loop state together with the events that the driver reports,
//! in order. The driver is faithful if each of its events is a possible
//! outcome of the command that was pending when it arrived.

use crate::event_loop::answers;
use crate::event_loop::command_of;
use crate::event_loop::next_state;
use crate::event_loop::shown;
use crate::event_loop::CommandView;
use crate::event_loop::EventView;
use crate::event_loop::Fatal;
use crate::event_loop::StateView;
use crate::event_loop::PAUSE_MILLIS;
use crate::message::fits;
use crate::message::wire_bytes;
use crate::message::MAX_MESSAGE_LEN;
use crate::queue::fresh;
use crate::queue::offer_of;
use crate::queue::poll_of;
use crate::queue::Offer;
use crate::screen::received_line;
use crate::wire::decoded;
use crate::wire::received;
use vstd::prelude::*;
use vstd::utf8::decode_utf8;
use vstd::utf8::encode_utf8_decode_utf8;
use vstd::utf8::encode_utf8_valid_utf8;
use vstd::utf8::valid_utf8;

verus! {

/// The state that the loop reaches from `state` as `events` arrive.
pub open spec fn run(state: StateView, events: Seq<EventView>) -> StateView
    decreases events.len(),
{
    if events.len() == 0 {
        state
    } else {
        next_state(run(state, events.drop_last()), events.last())
    }
}

/// Whether each of `events` answers the command that is pending when it
/// arrives.
pub open spec fn faithful(state: StateView, events: Seq<EventView>) -> bool
    decreases events.len(),
{
    events.len() == 0 || (faithful(state, events.drop_last()) && answers(
        run(state, events.drop_last()),
        events.last(),
    ))
}

/// The payloads that the loop asks to send during a run, in order, each
/// counted once when its command is issued. The command that is pending
/// before the first event is not counted.
pub open spec fn sends(state: StateView, events: Seq<EventView>) -> Seq<Seq<u8>>
    decreases events.len(),
{
    if events.len() == 0 {
        Seq::empty()
    } else {
        let earlier = sends(state, events.drop_last());
        let before = run(state, events.drop_last());
        if answers(before, events.last()) {
            match command_of(next_state(before, events.last())) {
                CommandView::Send(payload) => earlier.push(payload),
                _ => earlier,
            }
        } else {
            earlier
        }
    }
}

/// The payloads of the lines that the input queue hands over during a run,
/// in order.
pub open spec fn lines_taken(events: Seq<EventView>) -> Seq<Seq<u8>>
    decreases events.len(),
{
    if events.len() == 0 {
        Seq::empty()
    } else {
        match events.last() {
            EventView::Line(text) => lines_taken(events.drop_last()).push(wire_bytes(text)),
            _ => lines_taken(events.drop_last()),
        }
    }
}

/// The texts that a run puts on the screen because a datagram arrived, in
/// order.
pub open spec fn shown_on_arrival(state: StateView, events: Seq<EventView>) -> Seq<Seq<char>>
    decreases events.len(),
{
    if events.len() == 0 {
        Seq::empty()
    } else {
        let earlier = shown_on_arrival(state, events.drop_last());
        match (events.last(), shown(run(state, events.drop_last()), events.last())) {
            (EventView::Datagram(_), Some(text)) => earlier.push(text),
            _ => earlier,
        }
    }
}

/// The well-formed datagrams among `events`, each as it is to be shown, in
/// order.
pub open spec fn texts_arrived(events: Seq<EventView>) -> Seq<Seq<char>>
    decreases events.len(),
{
    if events.len() == 0 {
        Seq::empty()
    } else {
        let earlier = texts_arrived(events.drop_last());
        match events.last() {
            EventView::Datagram(bytes) => match decoded(bytes) {
                Some(text) => earlier.push(received_line(text)),
                None => earlier,
            },
            _ => earlier,
        }
    }
}

/// The payloads of the datagrams that arrive during a run, in order.
pub open spec fn datagrams_arrived(events: Seq<EventView>) -> Seq<Seq<u8>>
    decreases events.len(),
{
    if events.len() == 0 {
        Seq::empty()
    } else {
        match events.last() {
            EventView::Datagram(bytes) => datagrams_arrived(events.drop_last()).push(bytes),
            _ => datagrams_arrived(events.drop_last()),
        }
    }
}

/// `rounds` rounds of the loop in which nothing happens: no line, no
/// datagram, a pause.
pub open spec fn idle_rounds(rounds: nat) -> Seq<EventView>
    decreases rounds,
{
    if rounds == 0 {
        Seq::empty()
    } else {
        idle_rounds((rounds - 1) as nat) + seq![
            EventView::NoLine,
            EventView::NoDatagram,
            EventView::Woke,
        ]
    }
}

/// A typed line of at most 255 bytes passes through the endpoint as it
/// stands: the queue takes it, the next poll hands it to the loop, and the
/// loop then asks to send exactly its bytes, once: whether the transport
/// takes the datagram or not, the command that follows is no send.
pub proof fn line_goes_out_unmodified(line: Seq<char>)
    requires
        1 <= wire_bytes(line).len() <= MAX_MESSAGE_LEN,
    ensures
        offer_of(fresh(), Some(line)).1 == Offer::Queued,
        poll_of(offer_of(fresh(), Some(line)).0) == (fresh(), EventView::Line(line)),
        command_of(next_state(StateView::PollingInput, EventView::Line(line)))
            == CommandView::Send(wire_bytes(line)),
        !(command_of(next_state(StateView::Sending(line), EventView::Sent)) is Send),
        !(command_of(next_state(StateView::Sending(line), EventView::SendFailed)) is Send),
{
    assert(Seq::<Seq<char>>::empty().push(line).drop_first() =~= Seq::<Seq<char>>::empty());
}

/// With a faithful driver, the loop asks to send exactly the lines that it
/// takes from the queue: each once, unmodified, in the order in which they
/// were taken.
pub proof fn lines_go_out_in_order(state: StateView, events: Seq<EventView>)
    requires
        faithful(state, events),
    ensures
        sends(state, events) == lines_taken(events),
    decreases events.len(),
{
    if events.len() > 0 {
        lines_go_out_in_order(state, events.drop_last());
    }
}

/// A datagram of at most 255 bytes that is valid UTF-8 is shown as the
/// text it encodes, under the mark of received text, and the loop goes on
/// to its pause without keeping anything of it.
pub proof fn datagram_is_shown(datagram: Seq<u8>)
    requires
        datagram.len() <= MAX_MESSAGE_LEN,
        valid_utf8(datagram),
    ensures
        shown(StateView::PollingSocket, EventView::Datagram(datagram)) == Some(
            received_line(decode_utf8(datagram)),
        ),
        next_state(StateView::PollingSocket, EventView::Datagram(datagram)) == StateView::Pausing,
{
}

/// With a faithful driver, the screen shows every well-formed datagram
/// exactly once, in the order of arrival, and shows nothing else on
/// account of a datagram.
pub proof fn datagrams_are_shown_in_order(state: StateView, events: Seq<EventView>)
    requires
        faithful(state, events),
    ensures
        shown_on_arrival(state, events) == texts_arrived(events),
    decreases events.len(),
{
    if events.len() > 0 {
        datagrams_are_shown_in_order(state, events.drop_last());
    }
}

/// What one endpoint sends for a line, the other endpoint shows as the very
/// same text: encoding a message and decoding its datagram is the identity.
pub proof fn round_trip(line: Seq<char>)
    requires
        fits(line),
    ensures
        received(wire_bytes(line)) == wire_bytes(line),
        decoded(wire_bytes(line)) == Some(line),
        shown(StateView::PollingSocket, EventView::Datagram(wire_bytes(line))) == Some(
            received_line(line),
        ),
{
    encode_utf8_valid_utf8(line);
    encode_utf8_decode_utf8(line);
}

/// Whatever lines one endpoint sends, if the transport brings their
/// datagrams to the other endpoint whole and in order, the other endpoint
/// shows exactly those lines, each once, byte for byte and in order, and
/// does not stop over any of them.
pub proof fn peer_shows_what_was_sent(
    lines: Seq<Seq<char>>,
    state: StateView,
    events: Seq<EventView>,
)
    requires
        forall|i: int| 0 <= i < lines.len() ==> fits(#[trigger] lines[i]),
        faithful(state, events),
        datagrams_arrived(events) == lines.map_values(|line: Seq<char>| wire_bytes(line)),
    ensures
        shown_on_arrival(state, events) == lines.map_values(
            |line: Seq<char>| received_line(line),
        ),
        !(state is Halted) ==> !(run(state, events) matches StateView::Halted(
            Fatal::InvalidUtf8,
        )),
    decreases events.len(),
{
    let sent = lines.map_values(|line: Seq<char>| wire_bytes(line));
    let expected = lines.map_values(|line: Seq<char>| received_line(line));
    if events.len() == 0 {
        assert(lines.len() == sent.len());
        assert(expected =~= Seq::<Seq<char>>::empty());
    } else {
        let earlier = events.drop_last();
        match events.last() {
            EventView::Datagram(bytes) => {
                // The last datagram carries the last line, the earlier ones
                // the earlier lines.
                let line = lines.last();
                assert(sent.len() == datagrams_arrived(earlier).len() + 1);
                assert(sent.last() == wire_bytes(line));
                assert(bytes == datagrams_arrived(earlier).push(bytes).last());
                assert(datagrams_arrived(earlier) =~= lines.drop_last().map_values(
                    |line: Seq<char>| wire_bytes(line),
                )) by {
                    assert(datagrams_arrived(earlier) =~= sent.drop_last());
                }
                peer_shows_what_was_sent(lines.drop_last(), state, earlier);
                round_trip(line);
                assert(expected =~= lines.drop_last().map_values(
                    |line: Seq<char>| received_line(line),
                ).push(received_line(line)));
            },
            _ => {
                peer_shows_what_was_sent(lines, state, earlier);
            },
        }
    }
}

/// The loop stops only for one of the four fatal conditions, each in its
/// place: a closed input queue when polling it, a failed send when sending,
/// a failed receive or a malformed datagram when polling the socket. Once
/// stopped it stays stopped, whatever is reported to it.
pub proof fn loop_stops_only_when_it_must(state: StateView, event: EventView)
    ensures
        state is Halted ==> next_state(state, event) == state,
        !(state is Halted) ==> match next_state(state, event) {
            StateView::Halted(Fatal::InputClosed) => {
                state is PollingInput && event is InputClosed
            },
            StateView::Halted(Fatal::SendFailed) => {
                (state is Announcing || state is Sending) && event is SendFailed
            },
            StateView::Halted(Fatal::ReceiveFailed) => {
                state is PollingSocket && event is ReceiveFailed
            },
            StateView::Halted(Fatal::InvalidUtf8) => {
                state is PollingSocket && (event matches EventView::Datagram(bytes) && decoded(
                    bytes,
                ) is None)
            },
            _ => true,
        },
{
}

/// However long nothing happens, the loop does nothing but poll and rest:
/// after any number of idle rounds it stands at the top of a round again,
/// having sent nothing and shown nothing, and a line that then arrives is
/// sent at once.
pub proof fn idle_rounds_change_nothing(rounds: nat, line: Seq<char>)
    ensures
        faithful(StateView::PollingInput, idle_rounds(rounds)),
        run(StateView::PollingInput, idle_rounds(rounds)) == StateView::PollingInput,
        sends(StateView::PollingInput, idle_rounds(rounds)) == Seq::<Seq<u8>>::empty(),
        shown_on_arrival(StateView::PollingInput, idle_rounds(rounds)) == Seq::<
            Seq<char>,
        >::empty(),
        command_of(
            run(StateView::PollingInput, idle_rounds(rounds).push(EventView::Line(line))),
        ) == CommandView::Send(wire_bytes(line)),
    decreases rounds,
{
    let start = StateView::PollingInput;
    if rounds > 0 {
        let earlier = idle_rounds((rounds - 1) as nat);
        idle_rounds_change_nothing((rounds - 1) as nat, line);
        let one = earlier.push(EventView::NoLine);
        let two = one.push(EventView::NoDatagram);
        let three = two.push(EventView::Woke);
        assert(one.drop_last() == earlier);
        assert(two.drop_last() == one);
        assert(three.drop_last() == two);
        assert(three == idle_rounds(rounds));
        assert(run(start, one) == StateView::PollingSocket);
        assert(run(start, two) == StateView::Pausing);
        assert(faithful(start, one));
        assert(faithful(start, two));
        assert(sends(start, one) == Seq::<Seq<u8>>::empty());
        assert(sends(start, two) == Seq::<Seq<u8>>::empty());
        assert(shown_on_arrival(start, one) == Seq::<Seq<char>>::empty());
        assert(shown_on_arrival(start, two) == Seq::<Seq<char>>::empty());
    }
    let last = idle_rounds(rounds).push(EventView::Line(line));
    assert(last.drop_last() == idle_rounds(rounds));
}

/// Between two polls of the same kind lies a pause: the loop comes back to
/// the top of a round only from its pause, or from the greeting at startup,
/// and the pause always lasts `PAUSE_MILLIS`.
pub proof fn every_round_rests(state: StateView, event: EventView)
    requires
        answers(state, event),
        next_state(state, event) is PollingInput,
    ensures
        (state is Pausing && command_of(state) == CommandView::Sleep(PAUSE_MILLIS))
            || state is Announcing,
{
}

} // verus!
