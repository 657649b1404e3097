//! A chat message: one line of text that fits in a single datagram.

use vstd::prelude::*;
use vstd::string::StrSliceExecFns;
use vstd::string::StringSliceAdditionalSpecFns;
use vstd::utf8::encode_utf8;

verus! {

/// The largest number of bytes that one datagram may carry.
pub const MAX_MESSAGE_LEN: usize = 255;

/// The bytes that carry `text` on the wire: its UTF-8 encoding, with no
/// header, length prefix or checksum around it.
pub open spec fn wire_bytes(text: Seq<char>) -> Seq<u8> {
    encode_utf8(text)
}

/// Whether `text` can be a message: it takes at least one byte on the wire
/// and no more than a datagram holds.
pub open spec fn fits(text: Seq<char>) -> bool {
    1 <= wire_bytes(text).len() <= MAX_MESSAGE_LEN
}

/// Why a text cannot be a message.
#[derive(Clone, Copy, Debug, PartialEq, Eq, Structural)]
pub enum MessageError {
    /// The text has no bytes at all.
    Empty,
    /// The text takes more than `MAX_MESSAGE_LEN` bytes.
    TooLong,
}

/// The verdict on `text` as a message: the reason to refuse it, if any.
pub open spec fn refusal(text: Seq<char>) -> Option<MessageError> {
    if wire_bytes(text).len() == 0 {
        Some(MessageError::Empty)
    } else if wire_bytes(text).len() > MAX_MESSAGE_LEN {
        Some(MessageError::TooLong)
    } else {
        None
    }
}

/// One line of text, line terminator included, of 1 to 255 bytes.
///
/// A message is never changed once made: it is sent as it stands, or shown
/// as it stands.
#[derive(Debug, PartialEq, Eq)]
pub struct Message {
    text: String,
}

impl View for Message {
    type V = Seq<char>;

    closed spec fn view(&self) -> Seq<char> {
        self.text@
    }
}

impl Clone for Message {
    fn clone(&self) -> (copy: Message)
        ensures
            copy@ == self@,
    {
        proof {
            use_type_invariant(self);
        }
        Message { text: self.text.clone() }
    }
}

impl Message {
    #[verifier::type_invariant]
    spec fn within_limits(&self) -> bool {
        fits(self.text@)
    }

    /// Makes a message of `text`, unless it is empty or too long.
    pub fn new(text: String) -> (made: Result<Message, MessageError>)
        ensures
            made is Ok <==> fits(text@),
            made matches Ok(message) ==> message@ == text@,
            made matches Err(reason) ==> refusal(text@) == Some(reason),
    {
        let len = text.as_str().as_bytes().len();
        if len == 0 {
            Err(MessageError::Empty)
        } else if len > MAX_MESSAGE_LEN {
            Err(MessageError::TooLong)
        } else {
            Ok(Message { text })
        }
    }

    /// The text of the message.
    pub fn as_str(&self) -> (text: &str)
        ensures
            text@ == self@,
            fits(text@),
    {
        proof {
            use_type_invariant(self);
        }
        self.text.as_str()
    }

    /// The number of bytes that the message takes on the wire.
    pub fn len(&self) -> (n: usize)
        ensures
            n == wire_bytes(self@).len(),
            1 <= n <= MAX_MESSAGE_LEN,
    {
        proof {
            use_type_invariant(self);
        }
        self.text.as_str().as_bytes().len()
    }

    /// The datagram payload that carries the message: its bytes, unmodified.
    pub fn payload(&self) -> (bytes: Vec<u8>)
        ensures
            bytes@ == wire_bytes(self@),
            1 <= bytes.len() <= MAX_MESSAGE_LEN,
    {
        proof {
            use_type_invariant(self);
        }
        self.text.as_str().as_bytes_vec()
    }

    /// Gives the text back.
    pub fn into_text(self) -> (text: String)
        ensures
            text@ == self@,
            fits(text@),
    {
        proof {
            use_type_invariant(&self);
        }
        self.text
    }
}

} // verus!
