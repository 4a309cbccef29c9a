//! What holds of every run of the server, proved from its transitions.

use crate::connection::{connection_step, ConnectionState, Step};
use crate::event::Event;
use crate::failure::Failure;
use crate::request::ends_with_terminator;
use crate::response::{parts_make_response, response, Part};
use crate::server::{server_step, Action, ServerState};
use vstd::prelude::*;
use vstd::utf8::{decode_utf8, valid_utf8};

verus! {

/// The failure that stops a server when an action fails in `state`: that of
/// the phase it is in, or the one already met if there is one.
pub open spec fn failure_in(state: ServerState) -> Failure {
    match state {
        ServerState::Listening => Failure::Listen,
        ServerState::Accepting => Failure::Accept,
        ServerState::Serving(ConnectionState::Reading { .. }) => Failure::Read,
        ServerState::Serving(ConnectionState::Writing { .. })
        | ServerState::Serving(ConnectionState::Finished) => Failure::Write,
        ServerState::Serving(ConnectionState::Failed(failure)) => failure,
        ServerState::Stopped(failure) => failure,
    }
}

/// A server whose connection, if it has one, is still being read or written.
pub open spec fn at_work(state: ServerState) -> bool {
    match state {
        ServerState::Listening | ServerState::Accepting => true,
        ServerState::Serving(connection) => connection is Reading || connection is Writing,
        ServerState::Stopped(_) => false,
    }
}

/// A server at work stays at work until it stops: the connection it holds is
/// never one that is finished or given up.
pub proof fn work_goes_on(state: ServerState, event: Event)
    requires
        at_work(state),
    ensures
        at_work(server_step(state, event).0) || server_step(state, event).0 is Stopped,
{
}

/// Any failed action stops the server, with the failure of the phase it was in.
pub proof fn failure_stops(state: ServerState, event: Event)
    requires
        at_work(state),
        event is Failed,
    ensures
        server_step(state, event) == (
            ServerState::Stopped(failure_in(state)),
            Action::Stop(failure_in(state)),
        ),
{
}

/// A stopped server stays stopped, whatever is reported to it.
pub proof fn stopped_for_good(failure: Failure, event: Event)
    ensures
        server_step(ServerState::Stopped(failure), event) == (
            ServerState::Stopped(failure),
            Action::Stop(failure),
        ),
{
}

/// The server stops exactly when it asks for `Stop`, and gives the same reason
/// in both places.
pub proof fn stop_is_final(state: ServerState, event: Event, failure: Failure)
    ensures
        server_step(state, event).1 == Action::Stop(failure) <==> server_step(state, event).0
            == ServerState::Stopped(failure),
{
}

/// One connection at a time: a connection is asked for exactly when none is
/// held, and reads and writes are asked for only while one is held.
pub proof fn one_connection_at_a_time(state: ServerState, event: Event)
    ensures
        server_step(state, event).1 is Accept <==> server_step(state, event).0 is Accepting,
        server_step(state, event).1 is Read || server_step(state, event).1 is Write
            <==> server_step(state, event).0 is Serving,
{
}

/// Reading goes on exactly as long as the bytes gathered do not end with the
/// terminator; until then they are kept, in the order in which they came.
pub proof fn reads_until_terminator(incoming: Seq<u8>, event: Event)
    requires
        !(event is Failed),
    ensures
        ({
            let gathered = incoming + event.spec_bytes();
            let next = connection_step(ConnectionState::Reading { incoming }, event);
            &&& next.1 == Step::Read <==> !ends_with_terminator(gathered)
            &&& next.1 == Step::Read ==> next.0 == (ConnectionState::Reading { incoming: gathered })
        }),
{
}

/// When the last read is in, the bytes end with the terminator; the request is
/// the text they encode if they are UTF-8, and the connection is given up if
/// they are not.
pub proof fn request_is_what_was_read(incoming: Seq<u8>, event: Event)
    requires
        !(event is Failed),
        ends_with_terminator(incoming + event.spec_bytes()),
    ensures
        ({
            let gathered = incoming + event.spec_bytes();
            let next = connection_step(ConnectionState::Reading { incoming }, event);
            if valid_utf8(gathered) {
                next == (
                    ConnectionState::Writing {
                        request: decode_utf8(gathered),
                        part: Part::StatusLine,
                    },
                    Step::Write(Part::StatusLine),
                )
            } else {
                next == (
                    ConnectionState::Failed(Failure::InvalidUtf8),
                    Step::Fail(Failure::InvalidUtf8),
                )
            }
        }),
{
}

/// Whatever the request says, once it is complete the same three parts are
/// written, they add up to the fixed response, and only then is the next
/// connection accepted.
pub proof fn every_request_gets_the_response(
    incoming: Seq<u8>,
    last_read: Event,
    first_write: Event,
    second_write: Event,
    third_write: Event,
)
    requires
        !(last_read is Failed),
        !(first_write is Failed),
        !(second_write is Failed),
        !(third_write is Failed),
        ends_with_terminator(incoming + last_read.spec_bytes()),
        valid_utf8(incoming + last_read.spec_bytes()),
    ensures
        ({
            let reading = ServerState::Serving(ConnectionState::Reading { incoming });
            let (s1, a1) = server_step(reading, last_read);
            let (s2, a2) = server_step(s1, first_write);
            let (s3, a3) = server_step(s2, second_write);
            let (s4, a4) = server_step(s3, third_write);
            &&& a1 == Action::Write(Part::StatusLine)
            &&& a2 == Action::Write(Part::BlankLine)
            &&& a3 == Action::Write(Part::Body)
            &&& a4 == Action::Accept
            &&& s4 == ServerState::Accepting
            &&& a1->Write_0.spec_bytes() + a2->Write_0.spec_bytes() + a3->Write_0.spec_bytes()
                == response()
        }),
{
    parts_make_response();
}

/// The state that the server is in after it has taken in `events`, one by one.
pub open spec fn run(state: ServerState, events: Seq<Event>) -> ServerState
    decreases events.len(),
{
    if events.len() == 0 {
        state
    } else {
        server_step(run(state, events.drop_last()), events.last()).0
    }
}

/// All the bytes that `events` carry, in their order.
pub open spec fn gathered(events: Seq<Event>) -> Seq<u8>
    decreases events.len(),
{
    if events.len() == 0 {
        Seq::empty()
    } else {
        gathered(events.drop_last()) + events.last().spec_bytes()
    }
}

/// However the bytes of a request are cut into reads, the server keeps them
/// all and goes on reading as long as no read has left them ending with the
/// terminator.
pub proof fn unfinished_request_is_kept(events: Seq<Event>)
    requires
        forall|i: int| 0 <= i < events.len() ==> !(#[trigger] events[i] is Failed),
        forall|k: int| 0 < k <= events.len() ==> !ends_with_terminator(#[trigger] gathered(events.take(k))),
    ensures
        run(ServerState::Serving(ConnectionState::Reading { incoming: Seq::empty() }), events)
            == ServerState::Serving(ConnectionState::Reading { incoming: gathered(events) }),
    decreases events.len(),
{
    if events.len() > 0 {
        let earlier = events.drop_last();
        assert forall|k: int| 0 < k <= earlier.len() implies !ends_with_terminator(
            #[trigger] gathered(earlier.take(k)),
        ) by {
            assert(earlier.take(k) =~= events.take(k));
        }
        unfinished_request_is_kept(earlier);
        assert(events.take(events.len() as int) =~= events);
        assert(!(events[events.len() - 1] is Failed));
    }
}

} // verus!
