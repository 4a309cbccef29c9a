//! Why a server stops.

use vstd::prelude::*;

verus! {

/// The step at which serving came to an end. Nothing is retried: the first
/// failure stops the server for good.
#[derive(Clone, Copy, Debug, PartialEq, Eq, Structural)]
pub enum Failure {
    /// The listening address could not be parsed or bound.
    Listen,
    /// Waiting for the next connection failed.
    Accept,
    /// Reading from the connection failed.
    Read,
    /// The request was complete, but its bytes are not UTF-8.
    InvalidUtf8,
    /// Writing the response failed.
    Write,
}

} // verus!
