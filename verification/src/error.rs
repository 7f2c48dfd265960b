//! Error taxonomy of the tailer.
//!
//! Three things go wrong: the remote service fails or cannot be reached
//! (`Transport`), a response is missing a field it owes us (`Protocol`), or
//! the operator's start-policy parameters are incomplete (`Config`).  A
//! `Config` error is detected before any polling begins; the other two
//! surface from a single shard's poller and terminate only that poller.

use vstd::prelude::*;

verus! {

/// The class an error falls into.
#[derive(Clone, Copy, Debug, PartialEq, Eq, Structural)]
pub enum ErrorKind {
    /// Network, auth, or service-side failure of a remote call.
    Transport,
    /// A well-formed reply that omits a field the protocol owes us,
    /// such as a position token.
    Protocol,
    /// An invalid combination of start policy and required parameter,
    /// caught before any poller runs.
    Config,
}

/// An error of the tailer: its kind plus a human-readable message.
#[derive(Debug)]
pub struct Error {
    pub kind: ErrorKind,
    pub message: String,
}

impl Error {
    /// Builds an error of the given kind carrying the given message.
    pub fn new(kind: ErrorKind, message: String) -> (r: Error)
        ensures
            r.kind == kind,
            r.message == message,
    {
        Error { kind, message }
    }

    /// The class this error falls into.
    pub fn kind(&self) -> (r: &ErrorKind)
        ensures
            r == self.kind,
    {
        &self.kind
    }

    /// The message, for the operator-facing error channel.
    pub fn message(&self) -> (r: &String)
        ensures
            r == self.message,
    {
        &self.message
    }
}

} // verus!
