//! The wire format of a datagram: the raw UTF-8 bytes of one line, capped
//! at the size of the receive buffer.

use crate::message::fits;
use crate::message::wire_bytes;
use crate::message::MAX_MESSAGE_LEN;
use vstd::prelude::*;
use vstd::string::StrSliceExecFns;
use vstd::string::StringSliceAdditionalSpecFns;
use vstd::utf8::decode_utf8;
use vstd::utf8::encode_utf8_decode_utf8;
use vstd::utf8::is_ascii_chars_encode_utf8;
use vstd::utf8::valid_utf8;

verus! {

/// The error of `core::str::from_utf8`, carried but never looked into.
#[verifier::external_type_specification]
#[verifier::external_body]
pub struct ExUtf8Error(core::str::Utf8Error);

/// `core::str::from_utf8` succeeds exactly on the byte sequences that are
/// valid UTF-8, and the string slice it then returns is made of the very
/// bytes it was given.
pub assume_specification[ core::str::from_utf8 ](bytes: &[u8]) -> (checked: Result<
    &str,
    core::str::Utf8Error,
>)
    ensures
        checked is Ok <==> valid_utf8(bytes@),
        checked matches Ok(text) ==> text.spec_bytes() == bytes@,
;

/// The text that an endpoint sends first, before any typed line.
pub open spec fn greeting() -> Seq<char> {
    "Client connected!\n"@
}

/// The greeting is a message like any other: eighteen bytes on the wire.
pub proof fn greeting_fits()
    ensures
        wire_bytes(greeting()).len() == 18,
        fits(greeting()),
{
    reveal_strlit("Client connected!\n");
    is_ascii_chars_encode_utf8(greeting());
}

/// The payload of the first datagram that an endpoint sends.
pub fn announcement() -> (bytes: Vec<u8>)
    ensures
        bytes@ == wire_bytes(greeting()),
        1 <= bytes.len() <= MAX_MESSAGE_LEN,
{
    proof {
        greeting_fits();
    }
    "Client connected!\n".as_bytes_vec()
}

/// What the receive buffer keeps of an arriving datagram: its first
/// `MAX_MESSAGE_LEN` bytes. Anything beyond them is cut off without notice.
pub open spec fn received(datagram: Seq<u8>) -> Seq<u8> {
    if datagram.len() > MAX_MESSAGE_LEN {
        datagram.subrange(0, MAX_MESSAGE_LEN as int)
    } else {
        datagram
    }
}

/// The text that an arriving datagram carries, if what the receive buffer
/// keeps of it is well-formed.
pub open spec fn decoded(datagram: Seq<u8>) -> Option<Seq<char>> {
    if valid_utf8(received(datagram)) {
        Some(decode_utf8(received(datagram)))
    } else {
        None
    }
}

/// Decodes an arriving datagram: cuts it to the size of the receive buffer,
/// then reads the rest as UTF-8. `None` means that those bytes are not
/// valid UTF-8.
pub fn decode_datagram(datagram: Vec<u8>) -> (text: Option<String>)
    ensures
        match text {
            Some(t) => decoded(datagram@) == Some(t@),
            None => decoded(datagram@) is None,
        },
{
    let mut kept = datagram;
    kept.truncate(MAX_MESSAGE_LEN);
    assert(kept@ == received(datagram@));
    match core::str::from_utf8(kept.as_slice()) {
        Ok(text) => {
            proof {
                encode_utf8_decode_utf8(text@);
            }
            Some(text.to_owned())
        },
        Err(_) => None,
    }
}

} // verus!
