//! The ways in which an operation of a protocol client can fail.

use vstd::prelude::*;

verus! {

/// Why an operation did not give its result.
#[derive(Clone, Copy, Debug, PartialEq, Eq, Structural)]
pub enum ClientError {
    /// The transport could not be set up, or failed while in use.
    Connection,
    /// A message was sent or arrived that the protocol state does not allow.
    ProtocolViolation,
    /// The peer declined to serve the block: the point is not on its chain.
    NotFound,
    /// None of the candidate points is on the peer's chain.
    NoIntersection,
    /// The peer could not acquire the ledger state at the requested point.
    AcquireFailed,
    /// The peer answered a query with something that is no result.
    QueryFailed,
    /// Bytes or text handed in are not what they are said to be: no
    /// transaction, no address, no well-formed mempool entry.
    Decode,
    /// The session was closed before the call.
    ClosedHandle,
}

impl ClientError {
    /// A fatal error ends the use of the client that reported it; after any
    /// other the client can be used again.
    pub open spec fn spec_is_fatal(self) -> bool {
        match self {
            ClientError::Connection => true,
            ClientError::ProtocolViolation => true,
            ClientError::ClosedHandle => true,
            ClientError::Decode => false,
            ClientError::NotFound => false,
            ClientError::NoIntersection => false,
            ClientError::AcquireFailed => false,
            ClientError::QueryFailed => false,
        }
    }

    pub fn is_fatal(self) -> (r: bool)
        ensures
            r == self.spec_is_fatal(),
    {
        match self {
            ClientError::Connection => true,
            ClientError::ProtocolViolation => true,
            ClientError::ClosedHandle => true,
            ClientError::Decode => false,
            ClientError::NotFound => false,
            ClientError::NoIntersection => false,
            ClientError::AcquireFailed => false,
            ClientError::QueryFailed => false,
        }
    }
}

} // verus!
