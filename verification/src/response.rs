//! The response: the same for every request, written in three parts.

use vstd::prelude::*;
use vstd::utf8::{encode_utf8, is_ascii_chars};

verus! {

/// The text of the status line.
pub open spec fn status_line() -> Seq<char> {
    "HTTP/1.1 200 OK\r\n"@
}

/// The text of the empty line that ends the headers.
pub open spec fn blank_line() -> Seq<char> {
    "\r\n"@
}

/// The text of the body.
pub open spec fn body() -> Seq<char> {
    "Hello from plaque!\n"@
}

/// The text of the whole response.
pub open spec fn response_text() -> Seq<char> {
    "HTTP/1.1 200 OK\r\n\r\nHello from plaque!\n"@
}

/// The bytes of the whole response, as a client receives them.
pub open spec fn response() -> Seq<u8> {
    encode_utf8(response_text())
}

/// One of the three writes that make up the response, in their order.
#[derive(Clone, Copy, Debug, PartialEq, Eq, Structural)]
pub enum Part {
    StatusLine,
    BlankLine,
    Body,
}

impl Part {
    /// The bytes that this part puts on the wire.
    pub open spec fn spec_bytes(self) -> Seq<u8> {
        match self {
            Part::StatusLine => encode_utf8(status_line()),
            Part::BlankLine => encode_utf8(blank_line()),
            Part::Body => encode_utf8(body()),
        }
    }

    /// The part that follows this one, if any.
    pub open spec fn spec_next(self) -> Option<Part> {
        match self {
            Part::StatusLine => Some(Part::BlankLine),
            Part::BlankLine => Some(Part::Body),
            Part::Body => None,
        }
    }

    /// The part that a response starts with.
    pub fn first() -> (part: Part)
        ensures
            part == Part::StatusLine,
    {
        Part::StatusLine
    }

    /// The part to write once this one is out; `None` after the last.
    pub fn next(self) -> (following: Option<Part>)
        ensures
            following == self.spec_next(),
    {
        match self {
            Part::StatusLine => Some(Part::BlankLine),
            Part::BlankLine => Some(Part::Body),
            Part::Body => None,
        }
    }

    /// The bytes to write for this part.
    pub fn bytes(self) -> (out: &'static [u8])
        ensures
            out@ == self.spec_bytes(),
    {
        match self {
            Part::StatusLine => "HTTP/1.1 200 OK\r\n".as_bytes(),
            Part::BlankLine => "\r\n".as_bytes(),
            Part::Body => "Hello from plaque!\n".as_bytes(),
        }
    }
}

/// The encoding of ASCII text is that of its first half followed by that of
/// its second half.
proof fn encode_ascii_concat(head: Seq<char>, tail: Seq<char>)
    requires
        is_ascii_chars(head),
        is_ascii_chars(tail),
    ensures
        is_ascii_chars(head + tail),
        encode_utf8(head + tail) == encode_utf8(head) + encode_utf8(tail),
{
    let whole = head + tail;
    assert(is_ascii_chars(whole)) by {
        vstd::utf8::is_ascii_chars_concat(whole, head, tail);
    }
    vstd::utf8::is_ascii_chars_encode_utf8(head);
    vstd::utf8::is_ascii_chars_encode_utf8(tail);
    vstd::utf8::is_ascii_chars_encode_utf8(whole);
    assert(encode_utf8(whole) =~= encode_utf8(head) + encode_utf8(tail));
}

/// The three parts, written one after the other, are the whole response.
pub proof fn parts_make_response()
    ensures
        Part::StatusLine.spec_bytes() + Part::BlankLine.spec_bytes() + Part::Body.spec_bytes()
            == response(),
{
    reveal_strlit("HTTP/1.1 200 OK\r\n");
    reveal_strlit("\r\n");
    reveal_strlit("Hello from plaque!\n");
    reveal_strlit("HTTP/1.1 200 OK\r\n\r\nHello from plaque!\n");
    assert(is_ascii_chars(status_line()));
    assert(is_ascii_chars(blank_line()));
    assert(is_ascii_chars(body()));
    encode_ascii_concat(status_line(), blank_line());
    encode_ascii_concat(status_line() + blank_line(), body());
    assert(response_text() =~= status_line() + blank_line() + body());
}

} // verus!
