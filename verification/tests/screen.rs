use punchchat::config::Cli;
use punchchat::config::EPHEMERAL_PORT;
use punchchat::decimal::port_numeral;
use punchchat::screen::show_banner;
use punchchat::screen::show_received;
use punchchat::screen::show_sent;

#[test]
fn sent_line_is_marked() {
    assert_eq!(show_sent("hello\n"), ">> hello\n");
}

#[test]
fn received_line_is_marked() {
    assert_eq!(show_received("hello\n"), "<< hello\n");
}

#[test]
fn marks_differ_for_the_same_text() {
    assert_ne!(show_sent("same\n"), show_received("same\n"));
    assert_ne!(show_sent(""), show_received(""));
    // Not even a text that begins with the other mark is mistaken.
    assert_ne!(show_sent("<< x"), show_received(">> x"));
    assert!(show_sent("<< x").starts_with(">> "));
    assert!(show_received(">> x").starts_with("<< "));
}

#[test]
fn banner_reports_the_port() {
    assert_eq!(
        show_banner(5000),
        "Welcome to PunchChat!\nWe are listening on port 5000.\n"
    );
    assert_eq!(
        show_banner(0),
        "Welcome to PunchChat!\nWe are listening on port 0.\n"
    );
}

#[test]
fn numerals() {
    assert_eq!(port_numeral(0), "0");
    assert_eq!(port_numeral(7), "7");
    assert_eq!(port_numeral(9), "9");
    assert_eq!(port_numeral(10), "10");
    assert_eq!(port_numeral(99), "99");
    assert_eq!(port_numeral(100), "100");
    assert_eq!(port_numeral(5001), "5001");
    assert_eq!(port_numeral(40960), "40960");
    assert_eq!(port_numeral(65535), "65535");
}

#[test]
fn numerals_agree_with_std_for_every_port() {
    let mut port: u16 = 0;
    loop {
        assert_eq!(port_numeral(port), port.to_string());
        if port == u16::MAX {
            break;
        }
        port += 1;
    }
}

#[test]
fn cli_keeps_what_it_was_given() {
    let cli = Cli::new("203.0.113.7:5001".to_string(), 5000);
    assert_eq!(cli.remote(), "203.0.113.7:5001");
    assert_eq!(cli.port(), 5000);
    assert!(!cli.wants_ephemeral_port());
    assert_eq!(cli.bind_address(), "0.0.0.0:5000");
}

#[test]
fn cli_defaults_to_an_ephemeral_port() {
    assert_eq!(EPHEMERAL_PORT, 0);
    let cli = Cli::with_ephemeral_port("[2001:db8::1]:4000".to_string());
    assert_eq!(cli.remote(), "[2001:db8::1]:4000");
    assert_eq!(cli.port(), 0);
    assert!(cli.wants_ephemeral_port());
    assert_eq!(cli.bind_address(), "0.0.0.0:0");
    assert_eq!(cli, Cli::new("[2001:db8::1]:4000".to_string(), 0));
}
