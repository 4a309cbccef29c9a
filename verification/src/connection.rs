//! Serving one connection: read the request to its end, then write the
//! response part by part.

use crate::event::Event;
use crate::failure::Failure;
use crate::request::{ends_with_terminator, RequestReader};
use crate::response::Part;
use vstd::prelude::*;
use vstd::utf8::{decode_utf8, valid_utf8};

verus! {

/// What the caller is to do next with the connection.
#[derive(Clone, Copy, Debug, PartialEq, Eq, Structural)]
pub enum Step {
    /// Read once, at most `READ_CHUNK_SIZE` bytes, and report what came.
    Read,
    /// Write all the bytes of this part.
    Write(Part),
    /// The response is out: close the connection.
    Close,
    /// Give up on the connection for this reason.
    Fail(Failure),
}

/// A connection and how far it has been served.
pub enum Connection {
    /// The request is still coming in.
    Reading(RequestReader),
    /// The request is in; this part of the response is being written.
    Writing { request: String, part: Part },
    /// The whole response has been written.
    Finished,
    /// Serving was given up.
    Failed(Failure),
}

/// The mathematical value of a [`Connection`].
pub ghost enum ConnectionState {
    Reading { incoming: Seq<u8> },
    Writing { request: Seq<char>, part: Part },
    Finished,
    Failed(Failure),
}

impl View for Connection {
    type V = ConnectionState;

    open spec fn view(&self) -> ConnectionState {
        match self {
            Connection::Reading(reader) => ConnectionState::Reading { incoming: reader@ },
            Connection::Writing { request, part } => ConnectionState::Writing {
                request: request@,
                part: *part,
            },
            Connection::Finished => ConnectionState::Finished,
            Connection::Failed(failure) => ConnectionState::Failed(*failure),
        }
    }
}

/// Where a connection goes when a read has brought `incoming` in all.
pub open spec fn after_read(incoming: Seq<u8>) -> (ConnectionState, Step) {
    if !ends_with_terminator(incoming) {
        (ConnectionState::Reading { incoming }, Step::Read)
    } else if !valid_utf8(incoming) {
        (ConnectionState::Failed(Failure::InvalidUtf8), Step::Fail(Failure::InvalidUtf8))
    } else {
        (
            ConnectionState::Writing { request: decode_utf8(incoming), part: Part::StatusLine },
            Step::Write(Part::StatusLine),
        )
    }
}

/// Where a connection goes when `part` has been written.
pub open spec fn after_write(request: Seq<char>, part: Part) -> (ConnectionState, Step) {
    match part.spec_next() {
        Some(following) => (
            ConnectionState::Writing { request, part: following },
            Step::Write(following),
        ),
        None => (ConnectionState::Finished, Step::Close),
    }
}

/// The transition of a connection: its next state and what to do next, given
/// its state and whether the last step failed or what it brought.
pub open spec fn connection_step(state: ConnectionState, event: Event) -> (ConnectionState, Step) {
    match state {
        ConnectionState::Reading { incoming } => if event is Failed {
            (ConnectionState::Failed(Failure::Read), Step::Fail(Failure::Read))
        } else {
            after_read(incoming + event.spec_bytes())
        },
        ConnectionState::Writing { request, part } => if event is Failed {
            (ConnectionState::Failed(Failure::Write), Step::Fail(Failure::Write))
        } else {
            after_write(request, part)
        },
        ConnectionState::Finished => (state, Step::Close),
        ConnectionState::Failed(failure) => (state, Step::Fail(failure)),
    }
}

impl Connection {
    /// A connection that was just accepted, and the first thing to do with it.
    pub fn open() -> (start: (Connection, Step))
        ensures
            start.0@ == (ConnectionState::Reading { incoming: Seq::empty() }),
            start.1 == Step::Read,
    {
        (Connection::Reading(RequestReader::new()), Step::Read)
    }

    /// Takes in the outcome of the last step and says what to do next.
    pub fn step(self, event: Event) -> (next: (Connection, Step))
        ensures
            (next.0@, next.1) == connection_step(self@, event),
    {
        match self {
            Connection::Reading(mut reader) => {
                let done = match event {
                    Event::Failed => {
                        return (Connection::Failed(Failure::Read), Step::Fail(Failure::Read));
                    },
                    Event::Completed => {
                        assert(reader@ + Seq::<u8>::empty() =~= reader@);
                        reader.push(&[])
                    },
                    Event::Received(bytes) => reader.push(bytes.as_slice()),
                };
                if !done {
                    return (Connection::Reading(reader), Step::Read);
                }
                match reader.into_request() {
                    Ok(request) => (
                        Connection::Writing { request, part: Part::first() },
                        Step::Write(Part::first()),
                    ),
                    Err(failure) => (Connection::Failed(failure), Step::Fail(failure)),
                }
            },
            Connection::Writing { request, part } => {
                if let Event::Failed = event {
                    return (Connection::Failed(Failure::Write), Step::Fail(Failure::Write));
                }
                match part.next() {
                    Some(following) => (
                        Connection::Writing { request, part: following },
                        Step::Write(following),
                    ),
                    None => (Connection::Finished, Step::Close),
                }
            },
            Connection::Finished => (Connection::Finished, Step::Close),
            Connection::Failed(failure) => (Connection::Failed(failure), Step::Fail(failure)),
        }
    }
}

} // verus!
