//! The accept loop: listen once, then serve one connection after the other.
//!
//! A connection is accepted only when the one before it has been served to
//! its end, and the first failure of any kind stops the server.

use crate::connection::{connection_step, Connection, ConnectionState, Step};
use crate::event::Event;
use crate::failure::Failure;
use crate::response::Part;
use vstd::prelude::*;

verus! {

/// The address that the server listens on, as text.
pub open spec fn spec_listen_address() -> Seq<char> {
    "0.0.0.0:3779"@
}

/// The address that the server listens on: every interface, port 3779.
pub fn listen_address() -> (address: &'static str)
    ensures
        address@ == spec_listen_address(),
{
    "0.0.0.0:3779"
}

/// What the caller is to do next. It answers each action but `Stop` with one
/// [`Event`].
#[derive(Clone, Copy, Debug, PartialEq, Eq, Structural)]
pub enum Action {
    /// Parse [`listen_address`] and bind a listener to it.
    Listen,
    /// Close the connection that was served, if there is one, and wait for
    /// the next.
    Accept,
    /// Read once from the connection, at most `READ_CHUNK_SIZE` bytes.
    Read,
    /// Write all the bytes of this part to the connection.
    Write(Part),
    /// Stop serving and report this failure.
    Stop(Failure),
}

/// The server between two actions.
pub enum Server {
    /// The listener is being set up.
    Listening,
    /// No connection is open; the next one is awaited.
    Accepting,
    /// One connection is open and being served.
    Serving(Connection),
    /// The server has stopped for good.
    Stopped(Failure),
}

/// The mathematical value of a [`Server`].
pub ghost enum ServerState {
    Listening,
    Accepting,
    Serving(ConnectionState),
    Stopped(Failure),
}

impl View for Server {
    type V = ServerState;

    open spec fn view(&self) -> ServerState {
        match self {
            Server::Listening => ServerState::Listening,
            Server::Accepting => ServerState::Accepting,
            Server::Serving(connection) => ServerState::Serving(connection@),
            Server::Stopped(failure) => ServerState::Stopped(*failure),
        }
    }
}

/// What the server makes of a step of the connection it serves.
pub open spec fn after_connection_step(connection: ConnectionState, step: Step) -> (
    ServerState,
    Action,
) {
    match step {
        Step::Read => (ServerState::Serving(connection), Action::Read),
        Step::Write(part) => (ServerState::Serving(connection), Action::Write(part)),
        Step::Close => (ServerState::Accepting, Action::Accept),
        Step::Fail(failure) => (ServerState::Stopped(failure), Action::Stop(failure)),
    }
}

/// The transition of the server: its next state and the next action, given
/// its state and the outcome of the last action.
pub open spec fn server_step(state: ServerState, event: Event) -> (ServerState, Action) {
    match state {
        ServerState::Listening => if event is Failed {
            (ServerState::Stopped(Failure::Listen), Action::Stop(Failure::Listen))
        } else {
            (ServerState::Accepting, Action::Accept)
        },
        ServerState::Accepting => if event is Failed {
            (ServerState::Stopped(Failure::Accept), Action::Stop(Failure::Accept))
        } else {
            (
                ServerState::Serving(ConnectionState::Reading { incoming: Seq::empty() }),
                Action::Read,
            )
        },
        ServerState::Serving(connection) => {
            let (next, step) = connection_step(connection, event);
            after_connection_step(next, step)
        },
        ServerState::Stopped(failure) => (state, Action::Stop(failure)),
    }
}

impl Server {
    /// A server that has done nothing yet, and its first action.
    pub fn start() -> (start: (Server, Action))
        ensures
            start.0@ == ServerState::Listening,
            start.1 == Action::Listen,
    {
        (Server::Listening, Action::Listen)
    }

    /// Takes in the outcome of the last action and says what to do next.
    pub fn step(self, event: Event) -> (next: (Server, Action))
        ensures
            (next.0@, next.1) == server_step(self@, event),
    {
        match self {
            Server::Listening => match event {
                Event::Failed => (Server::Stopped(Failure::Listen), Action::Stop(Failure::Listen)),
                _ => (Server::Accepting, Action::Accept),
            },
            Server::Accepting => match event {
                Event::Failed => (Server::Stopped(Failure::Accept), Action::Stop(Failure::Accept)),
                _ => {
                    let (connection, _) = Connection::open();
                    (Server::Serving(connection), Action::Read)
                },
            },
            Server::Serving(connection) => {
                let (connection, step) = connection.step(event);
                match step {
                    Step::Read => (Server::Serving(connection), Action::Read),
                    Step::Write(part) => (Server::Serving(connection), Action::Write(part)),
                    Step::Close => (Server::Accepting, Action::Accept),
                    Step::Fail(failure) => (Server::Stopped(failure), Action::Stop(failure)),
                }
            },
            Server::Stopped(failure) => (Server::Stopped(failure), Action::Stop(failure)),
        }
    }
}

} // verus!
