use plaque::connection::{Connection, Step};
use plaque::event::Event;
use plaque::failure::Failure;
use plaque::response::Part;
use plaque::server::{listen_address, Action, Server};

fn received(bytes: &[u8]) -> Event {
    Event::Received(bytes.to_vec())
}

fn serving() -> Server {
    let (server, _) = Server::start();
    let (server, _) = server.step(Event::Completed);
    let (server, action) = server.step(Event::Completed);
    assert_eq!(action, Action::Read);
    server
}

#[test]
fn listens_on_every_interface_port_3779() {
    assert_eq!(listen_address(), "0.0.0.0:3779");
}

#[test]
fn starts_by_listening_then_accepts_then_reads() {
    let (server, action) = Server::start();
    assert_eq!(action, Action::Listen);
    assert!(matches!(server, Server::Listening));
    let (server, action) = server.step(Event::Completed);
    assert_eq!(action, Action::Accept);
    assert!(matches!(server, Server::Accepting));
    let (server, action) = server.step(Event::Completed);
    assert_eq!(action, Action::Read);
    assert!(matches!(server, Server::Serving(Connection::Reading(_))));
}

#[test]
fn serves_a_request_and_accepts_the_next() {
    let server = serving();
    let (server, action) = server.step(received(b"GET / HTTP/1.1\r\n"));
    assert_eq!(action, Action::Read);
    let (server, action) = server.step(received(b"Host: example\r\n\r\n"));
    assert_eq!(action, Action::Write(Part::StatusLine));
    match &server {
        Server::Serving(Connection::Writing { request, part }) => {
            assert_eq!(request, "GET / HTTP/1.1\r\nHost: example\r\n\r\n");
            assert_eq!(*part, Part::StatusLine);
        }
        _ => panic!("the server should be writing"),
    }
    let (server, action) = server.step(Event::Completed);
    assert_eq!(action, Action::Write(Part::BlankLine));
    let (server, action) = server.step(Event::Completed);
    assert_eq!(action, Action::Write(Part::Body));
    let (server, action) = server.step(Event::Completed);
    assert_eq!(action, Action::Accept);
    assert!(matches!(server, Server::Accepting));
    let (server, action) = server.step(Event::Completed);
    assert_eq!(action, Action::Read);
    let (_, action) = server.step(received(b"\r\n\r\n"));
    assert_eq!(action, Action::Write(Part::StatusLine));
}

#[test]
fn the_response_does_not_depend_on_the_request() {
    for request in [&b"\r\n\r\n"[..], &b"anything at all\r\n\r\n"[..], &b"POST /x HTTP/1.0\r\n\r\n"[..]] {
        let mut written: Vec<u8> = Vec::new();
        let (mut server, mut action) = serving().step(received(request));
        while let Action::Write(part) = action {
            written.extend_from_slice(part.bytes());
            (server, action) = server.step(Event::Completed);
        }
        assert_eq!(action, Action::Accept);
        assert_eq!(written, b"HTTP/1.1 200 OK\r\n\r\nHello from plaque!\n");
    }
}

#[test]
fn keeps_reading_at_the_end_of_the_stream() {
    let server = serving();
    let (server, action) = server.step(received(b"GET /"));
    assert_eq!(action, Action::Read);
    let (server, action) = server.step(received(b""));
    assert_eq!(action, Action::Read);
    let (_, action) = server.step(Event::Completed);
    assert_eq!(action, Action::Read);
}

#[test]
fn keeps_reading_when_bytes_follow_the_terminator() {
    let server = serving();
    let (server, action) = server.step(received(b"GET / HTTP/1.1\r\n\r\nmore"));
    assert_eq!(action, Action::Read);
    let (_, action) = server.step(received(b"\r\n\r\n"));
    assert_eq!(action, Action::Write(Part::StatusLine));
}

#[test]
fn a_request_that_is_not_utf8_stops_the_server() {
    let (server, action) = serving().step(received(&[0xff, 13, 10, 13, 10]));
    assert_eq!(action, Action::Stop(Failure::InvalidUtf8));
    assert!(matches!(server, Server::Stopped(Failure::InvalidUtf8)));
}

#[test]
fn a_failure_stops_the_server_in_every_phase() {
    let (server, _) = Server::start();
    let (_, action) = server.step(Event::Failed);
    assert_eq!(action, Action::Stop(Failure::Listen));

    let (server, _) = Server::start();
    let (server, _) = server.step(Event::Completed);
    let (_, action) = server.step(Event::Failed);
    assert_eq!(action, Action::Stop(Failure::Accept));

    let (_, action) = serving().step(Event::Failed);
    assert_eq!(action, Action::Stop(Failure::Read));

    let (server, _) = serving().step(received(b"\r\n\r\n"));
    let (_, action) = server.step(Event::Failed);
    assert_eq!(action, Action::Stop(Failure::Write));

    let (server, _) = serving().step(received(b"\r\n\r\n"));
    let (server, _) = server.step(Event::Completed);
    let (server, _) = server.step(Event::Completed);
    let (server, action) = server.step(Event::Failed);
    assert_eq!(action, Action::Stop(Failure::Write));
    assert!(matches!(server, Server::Stopped(Failure::Write)));
}

#[test]
fn a_stopped_server_stays_stopped() {
    let (server, _) = Server::start();
    let (server, _) = server.step(Event::Failed);
    let (server, action) = server.step(Event::Completed);
    assert_eq!(action, Action::Stop(Failure::Listen));
    let (server, action) = server.step(received(b"\r\n\r\n"));
    assert_eq!(action, Action::Stop(Failure::Listen));
    let (server, action) = server.step(Event::Failed);
    assert_eq!(action, Action::Stop(Failure::Listen));
    assert!(matches!(server, Server::Stopped(Failure::Listen)));
}

#[test]
fn a_connection_reads_then_writes_then_closes() {
    let (connection, step) = Connection::open();
    assert_eq!(step, Step::Read);
    let (connection, step) = connection.step(received(b"hi\r\n"));
    assert_eq!(step, Step::Read);
    let (connection, step) = connection.step(received(b"\r\n"));
    assert_eq!(step, Step::Write(Part::StatusLine));
    let (connection, step) = connection.step(Event::Completed);
    assert_eq!(step, Step::Write(Part::BlankLine));
    let (connection, step) = connection.step(Event::Completed);
    assert_eq!(step, Step::Write(Part::Body));
    let (connection, step) = connection.step(Event::Completed);
    assert_eq!(step, Step::Close);
    assert!(matches!(connection, Connection::Finished));
    let (connection, step) = connection.step(Event::Failed);
    assert_eq!(step, Step::Close);
    assert!(matches!(connection, Connection::Finished));
}

#[test]
fn a_connection_that_failed_stays_failed() {
    let (connection, _) = Connection::open();
    let (connection, step) = connection.step(Event::Failed);
    assert_eq!(step, Step::Fail(Failure::Read));
    let (connection, step) = connection.step(received(b"\r\n\r\n"));
    assert_eq!(step, Step::Fail(Failure::Read));
    assert!(matches!(connection, Connection::Failed(Failure::Read)));
}
