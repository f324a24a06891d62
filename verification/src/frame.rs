//! The messages that arrive on an open connection, and the text that each
//! one carries.

use vstd::prelude::*;
use vstd::utf8::{decode_utf8, encode_utf8, encode_utf8_decode_utf8, valid_utf8};

verus! {

/// One message, as the transport delivers it.
#[derive(Debug, PartialEq, Eq)]
pub enum Frame {
    /// A text message.
    Text(String),
    /// A binary message.
    Binary(Vec<u8>),
    /// A ping, a pong or a close: the transport's own business.
    Control,
}

/// The mathematical value of a [`Frame`].
pub enum FrameView {
    Text(Seq<char>),
    Binary(Seq<u8>),
    Control,
}

impl View for Frame {
    type V = FrameView;

    open spec fn view(&self) -> FrameView {
        match self {
            Frame::Text(text) => FrameView::Text(text@),
            Frame::Binary(bytes) => FrameView::Binary(bytes@),
            Frame::Control => FrameView::Control,
        }
    }
}

/// The text that a frame carries for decoding: that of a text message, that
/// which the bytes of a binary message encode in UTF-8, and none for a
/// binary message that is no UTF-8 or for a control message.
pub open spec fn payload(frame: FrameView) -> Option<Seq<char>> {
    match frame {
        FrameView::Text(text) => Some(text),
        FrameView::Binary(bytes) => if valid_utf8(bytes) {
            Some(decode_utf8(bytes))
        } else {
            None
        },
        FrameView::Control => None,
    }
}

#[verifier::external_type_specification]
#[verifier::external_body]
pub struct ExUtf8Error(std::str::Utf8Error);

/// `std::str::from_utf8`: the bytes as a string slice, where they are valid
/// UTF-8, and an error where they are not. The slice is made of the very
/// bytes that were given: they are the UTF-8 encoding of its characters.
#[verifier::external_body]
fn utf8_text(bytes: &[u8]) -> (r: Result<&str, std::str::Utf8Error>)
    ensures
        match r {
            Ok(text) => valid_utf8(bytes@) && encode_utf8(text@) == bytes@,
            Err(_) => !valid_utf8(bytes@),
        },
{
    std::str::from_utf8(bytes)
}

impl Frame {
    /// The text that this frame carries for decoding.
    pub fn text(&self) -> (r: Option<&str>)
        ensures
            match r {
                Some(text) => payload(self@) == Some(text@),
                None => payload(self@) is None,
            },
    {
        match self {
            Frame::Text(text) => Some(text.as_str()),
            Frame::Binary(bytes) => match utf8_text(bytes.as_slice()) {
                Ok(text) => {
                    proof {
                        encode_utf8_decode_utf8(text@);
                    }
                    Some(text)
                },
                Err(_) => None,
            },
            Frame::Control => None,
        }
    }
}

} // verus!
