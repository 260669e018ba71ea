//! The error kinds that cross the boundary of the core.

use vstd::prelude::*;

verus! {

/// What went wrong, as the caller of the core has to tell it apart.
#[derive(Clone, Copy, Debug, PartialEq, Eq, Structural)]
pub enum ErrorKind {
    /// An authorization check failed, the room or server is banned, or an
    /// administrator was required.
    Forbidden,
    /// The operation needs a membership that the user does not have.
    BadState,
    /// A peer answered with something malformed or unusable, or no peer
    /// could help.
    BadServerResponse,
    /// No such user or room.
    NotFound,
    /// The persistent store is inconsistent.
    Database,
    /// None of the above.
    Unknown,
}

/// An error with its kind and the text shown to the caller.
#[derive(Clone, Debug)]
pub struct Error {
    pub kind: ErrorKind,
    pub message: String,
}

impl Error {
    pub fn new(kind: ErrorKind, message: &str) -> (e: Error)
        ensures
            e.kind == kind,
            e.message@ == message@,
    {
        Error { kind, message: message.to_owned() }
    }

    /// Whether this error has the given kind and text.
    pub open spec fn is(&self, kind: ErrorKind, message: Seq<char>) -> bool {
        self.kind == kind && self.message@ == message
    }

    pub fn kind(&self) -> (k: ErrorKind)
        ensures
            k == self.kind,
    {
        self.kind
    }

    pub fn message(&self) -> (m: String)
        ensures
            m@ == self.message@,
    {
        self.message.clone()
    }

    /// A copy of this error.
    pub fn duplicate(&self) -> (e: Error)
        ensures
            e.kind == self.kind,
            e.message@ == self.message@,
    {
        Error { kind: self.kind, message: self.message.clone() }
    }
}

} // verus!
