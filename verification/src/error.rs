//! The errors of the client.

use vstd::prelude::*;
use crate::rpc::RpcError;

verus! {

/// What kind of input or output failure an error stands for.
#[derive(Debug, PartialEq)]
pub enum IoKind {
    /// No answer came in time, or the channel it would come on went away.
    TimedOut,
    /// Any other failure, with its description.
    Other(String),
}

/// What went wrong.
#[derive(Debug, PartialEq)]
pub enum ErrorKind {
    /// The server cannot be reached.
    Unreachable,
    /// A value could not be decoded into the type asked for.
    Decoder(String),
    /// A message from the server is not a valid response.
    InvalidResponse(String),
    /// The transport failed.
    Transport(String),
    /// The server answered with an error.
    Rpc(RpcError),
    /// An input or output operation failed.
    Io(IoKind),
    /// An internal error.
    Internal,
}

/// An error of the client.
#[derive(Debug, PartialEq)]
pub struct Error {
    pub kind: ErrorKind,
}

impl Error {
    /// An error of the given kind.
    pub fn new(kind: ErrorKind) -> (r: Error)
        ensures
            r.kind == kind,
    {
        Error { kind }
    }

    /// The kind of this error.
    pub fn kind(&self) -> (r: &ErrorKind)
        ensures
            *r == self.kind,
    {
        &self.kind
    }
}

impl From<ErrorKind> for Error {
    fn from(kind: ErrorKind) -> (r: Error) {
        Error { kind }
    }
}

impl vstd::std_specs::convert::FromSpecImpl<ErrorKind> for Error {
    open spec fn obeys_from_spec() -> bool {
        true
    }

    open spec fn from_spec(kind: ErrorKind) -> Error {
        Error { kind }
    }
}

} // verus!
