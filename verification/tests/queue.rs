use punchchat::event_loop::Command;
use punchchat::event_loop::Event;
use punchchat::event_loop::LoopState;
use punchchat::message::Message;
use punchchat::queue::InputQueue;
use punchchat::queue::Offer;

fn line(text: &str) -> Event {
    Event::Line(Message::new(text.to_string()).unwrap())
}

#[test]
fn new_queue_is_empty_and_open() {
    let mut queue = InputQueue::new();
    assert_eq!(queue.len(), 0);
    assert!(!queue.is_closed());
    assert_eq!(queue.poll(), Event::NoLine);
    assert_eq!(queue.poll(), Event::NoLine);
}

#[test]
fn offered_line_is_polled_once() {
    let mut queue = InputQueue::new();
    assert_eq!(queue.offer(Some("hello\n".to_string())), Offer::Queued);
    assert_eq!(queue.len(), 1);
    assert_eq!(queue.poll(), line("hello\n"));
    assert_eq!(queue.len(), 0);
    assert_eq!(queue.poll(), Event::NoLine);
}

#[test]
fn what_came_first_leaves_first() {
    let mut queue = InputQueue::new();
    assert_eq!(queue.offer(Some("one\n".to_string())), Offer::Queued);
    assert_eq!(queue.offer(Some("two\n".to_string())), Offer::Queued);
    assert_eq!(queue.poll(), line("one\n"));
    assert_eq!(queue.offer(Some("three\n".to_string())), Offer::Queued);
    assert_eq!(queue.len(), 2);
    assert_eq!(queue.poll(), line("two\n"));
    assert_eq!(queue.poll(), line("three\n"));
    assert_eq!(queue.poll(), Event::NoLine);
}

#[test]
fn long_line_is_discarded_and_later_lines_still_pass() {
    let mut queue = InputQueue::new();
    assert_eq!(queue.offer(Some("before\n".to_string())), Offer::Queued);
    assert_eq!(queue.offer(Some("x".repeat(300))), Offer::Discarded);
    assert_eq!(queue.len(), 1);
    assert!(!queue.is_closed());
    assert_eq!(queue.offer(Some("after\n".to_string())), Offer::Queued);
    assert_eq!(queue.poll(), line("before\n"));
    assert_eq!(queue.poll(), line("after\n"));
    assert_eq!(queue.poll(), Event::NoLine);
}

#[test]
fn limit_lies_between_255_and_256_bytes() {
    let mut queue = InputQueue::new();
    assert_eq!(queue.offer(Some("x".repeat(255))), Offer::Queued);
    assert_eq!(queue.offer(Some("x".repeat(256))), Offer::Discarded);
    assert_eq!(queue.len(), 1);
}

#[test]
fn end_of_input_closes_the_queue_after_what_waits_in_it() {
    let mut queue = InputQueue::new();
    assert_eq!(queue.offer(Some("last\n".to_string())), Offer::Queued);
    assert_eq!(queue.offer(Some(String::new())), Offer::Stopped);
    assert!(queue.is_closed());
    assert_eq!(queue.poll(), line("last\n"));
    assert_eq!(queue.poll(), Event::InputClosed);
    assert_eq!(queue.poll(), Event::InputClosed);
}

#[test]
fn failed_read_closes_the_queue() {
    let mut queue = InputQueue::new();
    assert_eq!(queue.offer(None), Offer::Stopped);
    assert!(queue.is_closed());
    assert_eq!(queue.poll(), Event::InputClosed);
}

#[test]
fn closed_queue_takes_nothing_more() {
    let mut queue = InputQueue::new();
    assert_eq!(queue.offer(None), Offer::Stopped);
    assert_eq!(queue.offer(Some("late\n".to_string())), Offer::Stopped);
    assert_eq!(queue.offer(Some("x".repeat(300))), Offer::Stopped);
    assert_eq!(queue.len(), 0);
    assert_eq!(queue.poll(), Event::InputClosed);
}

#[test]
fn typed_lines_reach_the_wire_in_order_and_long_ones_do_not() {
    let typed = vec![
        "first\n".to_string(),
        "z".repeat(300),
        "second\n".to_string(),
        "é".repeat(128),
        "third\n".to_string(),
    ];
    let mut queue = InputQueue::new();
    let mut warnings = 0;
    for text in typed {
        match queue.offer(Some(text)) {
            Offer::Queued => (),
            Offer::Discarded => warnings += 1,
            Offer::Stopped => panic!("the input has not ended"),
        }
    }
    assert_eq!(warnings, 2);

    let mut sent: Vec<Vec<u8>> = Vec::new();
    let mut state = LoopState::PollingInput;
    for _ in 0..5 {
        assert_eq!(state.command(), Command::PollInput);
        let mut step = state.step(queue.poll());
        if let Command::Send(payload) = step.next.command() {
            sent.push(payload);
            step = step.next.step(Event::Sent);
        }
        assert_eq!(step.next.command(), Command::PollSocket);
        let step = step.next.step(Event::NoDatagram);
        state = step.next.step(Event::Woke).next;
    }
    assert_eq!(
        sent,
        vec![
            "first\n".as_bytes().to_vec(),
            "second\n".as_bytes().to_vec(),
            "third\n".as_bytes().to_vec()
        ]
    );
    assert!(!state.is_halted());
}

#[test]
fn loop_halts_once_the_closed_queue_is_drained() {
    let mut queue = InputQueue::new();
    assert_eq!(queue.offer(Some("bye\n".to_string())), Offer::Queued);
    assert_eq!(queue.offer(Some(String::new())), Offer::Stopped);

    let step = LoopState::PollingInput.step(queue.poll());
    assert_eq!(step.next.command(), Command::Send("bye\n".as_bytes().to_vec()));
    let step = step.next.step(Event::Sent);
    let step = step.next.step(Event::NoDatagram);
    let step = step.next.step(Event::Woke);
    let step = step.next.step(queue.poll());
    assert!(step.next.is_halted());
}
