//! Reading a request: bytes are gathered until they end in a blank line.

use crate::failure::Failure;
use vstd::prelude::*;
use vstd::utf8::{decode_utf8, encode_utf8, valid_utf8};

verus! {

/// How many bytes a single read asks for at most.
pub const READ_CHUNK_SIZE: usize = 1024;

/// The four bytes that end a request: CR LF CR LF.
pub open spec fn terminator() -> Seq<u8> {
    seq![13u8, 10u8, 13u8, 10u8]
}

/// True when `bytes` ends with the terminator.
pub open spec fn ends_with_terminator(bytes: Seq<u8>) -> bool {
    bytes.len() >= 4 && bytes.subrange(bytes.len() - 4, bytes.len() as int) == terminator()
}

/// Tells whether the bytes gathered so far end with the terminator.
pub fn is_complete(incoming: &[u8]) -> (done: bool)
    ensures
        done == ends_with_terminator(incoming@),
{
    let n: usize = incoming.len();
    if n < 4 {
        return false;
    }
    let done = incoming[n - 4] == 13 && incoming[n - 3] == 10 && incoming[n - 2] == 13
        && incoming[n - 1] == 10;
    proof {
        let tail = incoming@.subrange(n - 4, n as int);
        if done {
            assert(tail =~= terminator());
        } else {
            assert(tail[0] == incoming@[n - 4]);
            assert(tail[1] == incoming@[n - 3]);
            assert(tail[2] == incoming@[n - 2]);
            assert(tail[3] == incoming@[n - 1]);
        }
    }
    done
}

/// Declares `std::string::FromUtf8Error`, the error of `String::from_utf8`, as
/// an opaque type. Trusted: nothing is claimed of its contents.
#[verifier::external_type_specification]
#[verifier::external_body]
pub struct ExFromUtf8Error(std::string::FromUtf8Error);

/// Calls `String::from_utf8`. Trusted: the call succeeds exactly on valid
/// UTF-8, and the text it then returns is made of the very bytes handed in.
#[verifier::external_body]
fn string_from_utf8(bytes: Vec<u8>) -> (decoded: Result<String, std::string::FromUtf8Error>)
    ensures
        decoded is Ok <==> valid_utf8(bytes@),
        decoded matches Ok(text) ==> encode_utf8(text@) == bytes@,
{
    String::from_utf8(bytes)
}

/// Turns the bytes of a request into text.
///
/// Succeeds exactly when the bytes are valid UTF-8, with the text they encode.
pub fn decode_request(bytes: Vec<u8>) -> (decoded: Result<String, Failure>)
    ensures
        valid_utf8(bytes@) ==> (decoded matches Ok(text) && text@ == decode_utf8(bytes@)),
        !valid_utf8(bytes@) ==> decoded == Err::<String, Failure>(Failure::InvalidUtf8),
{
    match string_from_utf8(bytes) {
        Ok(text) => {
            proof {
                vstd::utf8::encode_utf8_decode_utf8(text@);
            }
            Ok(text)
        },
        Err(_) => Err(Failure::InvalidUtf8),
    }
}

/// The bytes read from one connection so far.
pub struct RequestReader {
    incoming: Vec<u8>,
}

impl View for RequestReader {
    type V = Seq<u8>;

    closed spec fn view(&self) -> Seq<u8> {
        self.incoming@
    }
}

impl RequestReader {
    /// A reader that has seen no byte yet.
    pub fn new() -> (reader: RequestReader)
        ensures
            reader@ == Seq::<u8>::empty(),
    {
        RequestReader { incoming: Vec::new() }
    }

    /// Appends what one read brought in and tells whether the request is now
    /// complete, that is, whether all the bytes so far end with the terminator.
    pub fn push(&mut self, chunk: &[u8]) -> (done: bool)
        ensures
            final(self)@ == old(self)@ + chunk@,
            done == ends_with_terminator(final(self)@),
    {
        self.incoming.extend_from_slice(chunk);
        assert(self.incoming@ =~= old(self).incoming@ + chunk@);
        is_complete(self.incoming.as_slice())
    }

    /// Gives up the gathered bytes as text.
    pub fn into_request(self) -> (decoded: Result<String, Failure>)
        ensures
            valid_utf8(self@) ==> (decoded matches Ok(text) && text@ == decode_utf8(self@)),
            !valid_utf8(self@) ==> decoded == Err::<String, Failure>(Failure::InvalidUtf8),
    {
        decode_request(self.incoming)
    }
}

} // verus!
