//! The decisions of a tiny HTTP responder, free of any I/O.
//!
//! A server built on this crate accepts one connection at a time, reads bytes
//! until the request ends in a blank line, and answers with a fixed response.
//! The crate holds every decision of that cycle; the caller owns the sockets.

pub mod connection;
pub mod event;
pub mod failure;
pub mod guarantees;
pub mod request;
pub mod response;
pub mod server;
