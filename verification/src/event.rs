//! What the caller reports back after it has carried out an action.

use vstd::prelude::*;

verus! {

/// The outcome of the action that was last asked for.
pub enum Event {
    /// The action failed.
    Failed,
    /// Listening, accepting or writing went through.
    Completed,
    /// A read went through and brought these bytes (none at the end of the
    /// stream).
    Received(Vec<u8>),
}

impl Event {
    /// The bytes that the event carries: those of a read, else none.
    pub open spec fn spec_bytes(self) -> Seq<u8> {
        match self {
            Event::Received(bytes) => bytes@,
            _ => Seq::empty(),
        }
    }
}

} // verus!
