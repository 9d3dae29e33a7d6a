//! Tagged errors crossing the library's boundaries.

use vstd::prelude::*;

verus! {

/// Where a hardware-layer failure arose.
#[derive(Clone, Copy, PartialEq, Eq, Structural, Debug)]
pub enum ErrorKind {
    /// The chip device could not be opened, or the pin offset is
    /// invalid for it.
    Device,
    /// The line could not be claimed: already claimed elsewhere, or
    /// the request was rejected by the host.
    Claim,
    /// Getting or setting the value failed after a successful claim.
    Io,
}

/// A hardware-layer failure, surfaced verbatim to the HTTP boundary:
/// the kind callers can branch on, and the human-readable description
/// reported by the layer that failed.
#[derive(Clone, PartialEq, Eq, Debug)]
pub struct OpError {
    pub kind: ErrorKind,
    pub message: String,
}

impl OpError {
    /// Build a failure of the given kind.
    pub fn new(kind: ErrorKind, message: String) -> (e: OpError)
        ensures
            e.kind == kind,
            e.message@ == message@,
    {
        OpError { kind, message }
    }

    /// The human-readable description, exactly as it was reported.
    pub fn describe(&self) -> (s: String)
        ensures
            s@ == self.message@,
    {
        self.message.clone()
    }
}

/// Why a request was turned away before any dispatch work began.
#[derive(Clone, Copy, PartialEq, Eq, Structural, Debug)]
pub enum RequestError {
    /// The body exceeds the size cap.
    BodyTooLarge,
    /// The body is not a well-formed command.
    MalformedBody,
}

} // verus!
