use punchchat::input::take_line;
use punchchat::input::Intake;
use punchchat::message::Message;
use punchchat::screen::too_long_warning;

#[test]
fn typed_line_is_forwarded_with_its_terminator() {
    let expected = Message::new("hello\n".to_string()).unwrap();
    assert_eq!(take_line(Some("hello\n".to_string())), Intake::Forward(expected));
}

#[test]
fn line_without_terminator_is_forwarded_too() {
    match take_line(Some("last words".to_string())) {
        Intake::Forward(message) => assert_eq!(message.as_str(), "last words"),
        other => panic!("not forwarded: {:?}", other),
    }
}

#[test]
fn line_of_255_bytes_is_forwarded() {
    let mut line = "x".repeat(254);
    line.push('\n');
    match take_line(Some(line.clone())) {
        Intake::Forward(message) => assert_eq!(message.payload(), line.into_bytes()),
        other => panic!("not forwarded: {:?}", other),
    }
}

#[test]
fn line_of_256_bytes_is_discarded() {
    let mut line = "x".repeat(255);
    line.push('\n');
    assert_eq!(take_line(Some(line)), Intake::Discard);
}

#[test]
fn line_of_300_bytes_is_discarded_and_reading_goes_on() {
    assert_eq!(take_line(Some("y".repeat(300))), Intake::Discard);
    // The next line is judged on its own.
    match take_line(Some("still here\n".to_string())) {
        Intake::Forward(message) => assert_eq!(message.as_str(), "still here\n"),
        other => panic!("not forwarded: {:?}", other),
    }
}

#[test]
fn end_of_input_stops_the_source() {
    assert_eq!(take_line(Some(String::new())), Intake::Stop);
}

#[test]
fn failed_read_stops_the_source() {
    assert_eq!(take_line(None), Intake::Stop);
}

#[test]
fn warning_text() {
    assert_eq!(too_long_warning(), "!! Message to send is too long,");
}
