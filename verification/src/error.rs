//! The error taxonomy of the protocol.
//!
//! Every operation aborts with one of these before any byte of a record is
//! touched: validation is staged ahead of all writes, so an error means no
//! partial mutation.

use vstd::prelude::*;

verus! {

/// Why a request was rejected.
#[derive(Clone, Copy, Debug, PartialEq, Eq, Structural)]
pub enum EchoError {
    /// The request encoding was malformed and rejected before any state was read.
    InvalidInput,
    /// The target record has capacity zero, so there is nothing to write into.
    BufferNotAllocated,
    /// An anonymous write found a byte that is already non-zero: the one shot
    /// this record allows has been spent.
    BufferNotEmpty,
    /// The caller presented no valid proof of the identity it claims.
    MissingAuthorizationProof,
    /// The derived identifier disagrees with the supplied or stored one:
    /// a client bug or an attempted forgery, never retried.
    AddressMismatch,
    /// The storage collaborator refused to create the record, for instance
    /// because the identifier already exists.
    AllocationFailed,
    /// The requested operation variant is declared but has no behaviour.
    NotImplemented,
}

} // verus!
