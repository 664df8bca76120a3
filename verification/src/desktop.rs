//! The desktop front end's view of the client: its connection state and the
//! errors it reports.
use vstd::prelude::*;

verus! {

/// Whether the client is connected.
#[derive(Clone, Copy, Debug, PartialEq, Eq, Structural)]
pub enum Connection {
    Disconnected,
    Connected {},
}

impl Default for Connection {
    fn default() -> (c: Self)
        ensures
            c == Connection::Disconnected,
    {
        Connection::Disconnected
    }
}

/// An error shown to the front end, by its text.
#[derive(Debug)]
pub struct Error {
    pub message: String,
}

impl From<String> for Error {
    fn from(value: String) -> (e: Self) {
        Error { message: value }
    }
}

impl vstd::std_specs::convert::FromSpecImpl<String> for Error {
    open spec fn obeys_from_spec() -> bool {
        true
    }

    open spec fn from_spec(v: String) -> Error {
        Error { message: v }
    }
}

} // verus!
