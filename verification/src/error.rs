//! Failure classification for the operating-system introspection queries.

use vstd::prelude::*;

verus! {

/// Status code reported when the enumeration buffer was too small and the
/// required length accompanies the failure.
pub const STATUS_INFO_LENGTH_MISMATCH: u32 = 0xC0000004;

/// Status code for a query rejected for lack of rights.
pub const STATUS_ACCESS_DENIED: u32 = 0xC0000022;

/// Status code for a buffer that cannot hold the requested data.
pub const STATUS_BUFFER_TOO_SMALL: u32 = 0xC0000023;

/// Status code for a request the system does not implement.
pub const STATUS_NOT_IMPLEMENTED: u32 = 0xC0000002;

/// Status code for a request the system does not support.
pub const STATUS_NOT_SUPPORTED: u32 = 0xC00000BB;

/// Failure of an operating-system introspection query, carrying the
/// underlying status code where no more specific kind applies.
#[derive(Clone, Copy, Debug, PartialEq, Eq, Structural)]
pub enum QueryError {
    /// The query was rejected because the caller lacks the needed rights.
    AccessDenied,
    /// The query is not implemented or not supported on this system.
    Unsupported,
    /// The enumeration buffer protocol could not obtain a large enough
    /// buffer, or the reported required length was zero.
    BufferTooSmall,
    /// Any other failure, with the raw status code for diagnostics.
    Other(u32),
}

/// The error kind that a raw status code maps to.
pub open spec fn spec_query_error_of_status(status: u32) -> QueryError {
    if status == STATUS_ACCESS_DENIED {
        QueryError::AccessDenied
    } else if status == STATUS_NOT_IMPLEMENTED || status == STATUS_NOT_SUPPORTED {
        QueryError::Unsupported
    } else if status == STATUS_BUFFER_TOO_SMALL {
        QueryError::BufferTooSmall
    } else {
        QueryError::Other(status)
    }
}

/// Classify a raw status code into the error taxonomy.
pub fn query_error_of_status(status: u32) -> (e: QueryError)
    ensures
        e == spec_query_error_of_status(status),
{
    if status == STATUS_ACCESS_DENIED {
        QueryError::AccessDenied
    } else if status == STATUS_NOT_IMPLEMENTED || status == STATUS_NOT_SUPPORTED {
        QueryError::Unsupported
    } else if status == STATUS_BUFFER_TOO_SMALL {
        QueryError::BufferTooSmall
    } else {
        QueryError::Other(status)
    }
}

} // verus!
