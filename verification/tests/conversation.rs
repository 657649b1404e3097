use punchchat::event_loop::Command;
use punchchat::event_loop::Event;
use punchchat::event_loop::LoopState;
use punchchat::queue::InputQueue;
use punchchat::queue::Offer;
use punchchat::Cli;

/// Drives one endpoint through its rounds. Each round takes what the queue
/// holds, hands every datagram that the endpoint sends to `wire`, and
/// delivers at most one datagram from `inbox`. Returns what was shown.
fn drive(
    state: LoopState,
    queue: &mut InputQueue,
    inbox: &mut Vec<Vec<u8>>,
    wire: &mut Vec<Vec<u8>>,
    rounds: usize,
) -> (LoopState, String) {
    let mut state = state;
    let mut screen = String::new();
    let mut rested = 0;
    while rested < rounds {
        let event = match state.command() {
            Command::PollInput => queue.poll(),
            Command::Send(payload) => {
                wire.push(payload);
                Event::Sent
            }
            Command::PollSocket => {
                if inbox.is_empty() {
                    Event::NoDatagram
                } else {
                    Event::Datagram(inbox.remove(0))
                }
            }
            Command::Sleep(millis) => {
                assert_eq!(millis, 50);
                rested += 1;
                Event::Woke
            }
            Command::Halt(fatal) => panic!("halted: {:?}", fatal),
        };
        let step = state.step(event);
        if let Some(text) = step.display {
            screen.push_str(&text);
        }
        state = step.next;
    }
    (state, screen)
}

#[test]
fn two_endpoints_talk() {
    let a_cli = Cli::new("127.0.0.1:5001".to_string(), 5000);
    let b_cli = Cli::new("127.0.0.1:5000".to_string(), 5001);
    assert_eq!(a_cli.bind_address(), "0.0.0.0:5000");
    assert_eq!(b_cli.bind_address(), "0.0.0.0:5001");

    let mut a_queue = InputQueue::new();
    let mut b_queue = InputQueue::new();
    let mut to_a: Vec<Vec<u8>> = Vec::new();
    let mut to_b: Vec<Vec<u8>> = Vec::new();

    assert_eq!(a_queue.offer(Some("hello\n".to_string())), Offer::Queued);
    assert_eq!(a_queue.offer(Some("n".repeat(300))), Offer::Discarded);
    assert_eq!(a_queue.offer(Some("how are you? ¿qué tal?\n".to_string())), Offer::Queued);
    assert_eq!(b_queue.offer(Some("fine 👍\n".to_string())), Offer::Queued);

    let (a, a_screen) = drive(
        LoopState::start(a_cli.port()),
        &mut a_queue,
        &mut to_a,
        &mut to_b,
        3,
    );
    assert_eq!(
        to_b,
        vec![
            "Client connected!\n".as_bytes().to_vec(),
            "hello\n".as_bytes().to_vec(),
            "how are you? ¿qué tal?\n".as_bytes().to_vec()
        ]
    );
    assert_eq!(
        a_screen,
        "Welcome to PunchChat!\nWe are listening on port 5000.\n>> hello\n>> how are you? ¿qué tal?\n"
    );

    // In each round the input queue comes before the socket.
    let (b, b_screen) = drive(
        LoopState::start(b_cli.port()),
        &mut b_queue,
        &mut to_b,
        &mut to_a,
        4,
    );
    assert!(to_b.is_empty());
    assert_eq!(
        to_a,
        vec![
            "Client connected!\n".as_bytes().to_vec(),
            "fine 👍\n".as_bytes().to_vec()
        ]
    );
    assert_eq!(
        b_screen,
        "Welcome to PunchChat!\nWe are listening on port 5001.\n>> fine 👍\n<< Client connected!\n<< hello\n<< how are you? ¿qué tal?\n"
    );

    let (a, a_screen) = drive(a, &mut a_queue, &mut to_a, &mut to_b, 2);
    assert_eq!(a_screen, "<< Client connected!\n<< fine 👍\n");
    assert!(to_a.is_empty());
    assert!(to_b.is_empty());
    assert_eq!(a, LoopState::PollingInput);
    assert_eq!(b, LoopState::PollingInput);
}

#[test]
fn every_line_that_fits_is_shown_at_the_peer_byte_for_byte() {
    let typed: Vec<String> = vec![
        "a\n".to_string(),
        "ü".repeat(127) + "\n",
        "x".repeat(255),
        "tabs\tand\r\n".to_string(),
        "😀".repeat(63) + "ab\n",
    ];
    let mut queue = InputQueue::new();
    for line in &typed {
        assert_eq!(queue.offer(Some(line.clone())), Offer::Queued);
    }
    let mut nothing: Vec<Vec<u8>> = Vec::new();
    let mut wire: Vec<Vec<u8>> = Vec::new();
    let (_, _) = drive(LoopState::PollingInput, &mut queue, &mut nothing, &mut wire, 5);
    assert_eq!(wire.len(), 5);
    for (payload, line) in wire.iter().zip(&typed) {
        assert_eq!(payload.as_slice(), line.as_bytes());
    }

    let mut idle = InputQueue::new();
    let mut out: Vec<Vec<u8>> = Vec::new();
    let (_, screen) = drive(LoopState::PollingInput, &mut idle, &mut wire, &mut out, 5);
    let mut expected = String::new();
    for line in &typed {
        expected.push_str("<< ");
        expected.push_str(line);
    }
    assert_eq!(screen, expected);
    assert!(out.is_empty());
}
