//! Errors of a dispatched call: those found while the request was assembled,
//! and those of the transport that sent it.

use vstd::prelude::*;

verus! {

/// How the transport failed after a request was sent.
#[derive(Clone, Copy, Debug, PartialEq, Eq, Structural)]
pub enum TransportErrorKind {
    /// No connection could be made or kept.
    Connection,
    /// The remote side did not answer in time.
    Timeout,
    /// The answer broke the protocol.
    Protocol,
    /// The remote side answered with an error status.
    Response { status: u16 },
    /// The response body could not be decoded.
    Decode,
}

/// Error of a dispatched call.
#[derive(Debug)]
pub enum Error {
    /// A header could not be built from the given value.
    CreatingHeader { name: String },
    /// The transport failed after the request was sent.
    Transport { kind: TransportErrorKind },
}

impl Error {
    /// Whether the error arose before any request was sent.
    pub open spec fn spec_is_conversion(&self) -> bool {
        !(self is Transport)
    }

    /// Whether the error arose before any request was sent.
    pub fn is_conversion(&self) -> (r: bool)
        ensures
            r == self.spec_is_conversion(),
    {
        !matches!(self, Error::Transport { .. })
    }
}

} // verus!
