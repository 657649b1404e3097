//! What the operator sees: the banner, and each line of the conversation
//! under a mark that tells sent text from received text.

use crate::decimal::decimal;
use crate::decimal::port_numeral;
use vstd::prelude::*;
use vstd::string::StringExecFns;

verus! {

/// The mark in front of a line that this side has sent.
pub open spec fn sent_mark() -> Seq<char> {
    ">> "@
}

/// The mark in front of a line that the peer has sent.
pub open spec fn received_mark() -> Seq<char> {
    "<< "@
}

/// A sent line as it is shown.
pub open spec fn sent_line(text: Seq<char>) -> Seq<char> {
    sent_mark() + text
}

/// A received line as it is shown.
pub open spec fn received_line(text: Seq<char>) -> Seq<char> {
    received_mark() + text
}

/// The two lines shown at startup, the second of which reports the local
/// port that the endpoint is bound to.
pub open spec fn banner(port: u16) -> Seq<char> {
    "Welcome to PunchChat!\n"@ + "We are listening on port "@ + decimal(port as nat) + ".\n"@
}

/// The line that tells the operator that a typed line was dropped.
pub open spec fn too_long_notice() -> Seq<char> {
    "!! Message to send is too long,"@
}

/// Marks `text` as sent.
pub fn show_sent(text: &str) -> (line: String)
    ensures
        line@ == sent_line(text@),
{
    let mut line = String::from_str(">> ");
    line.append(text);
    line
}

/// Marks `text` as received.
pub fn show_received(text: &str) -> (line: String)
    ensures
        line@ == received_line(text@),
{
    let mut line = String::from_str("<< ");
    line.append(text);
    line
}

/// Writes the startup banner for an endpoint bound to `port`.
pub fn show_banner(port: u16) -> (text: String)
    ensures
        text@ == banner(port),
{
    let mut text = String::from_str("Welcome to PunchChat!\n");
    text.append("We are listening on port ");
    let numeral = port_numeral(port);
    text.append(numeral.as_str());
    text.append(".\n");
    text
}

/// The warning for a typed line that is too long to send.
pub fn too_long_warning() -> (line: &'static str)
    ensures
        line@ == too_long_notice(),
{
    "!! Message to send is too long,"
}

/// A sent line and a received line never look alike, whatever their texts:
/// their marks differ in the first character.
pub proof fn marks_tell_direction(sent: Seq<char>, received: Seq<char>)
    ensures
        sent_line(sent) != received_line(received),
        sent_line(sent)[0] == '>',
        received_line(received)[0] == '<',
{
    reveal_strlit(">> ");
    reveal_strlit("<< ");
    assert(sent_line(sent)[0] == '>');
    assert(received_line(received)[0] == '<');
}

} // verus!
