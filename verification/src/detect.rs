//! The detection pipeline over the operating system's introspection replies.
//!
//! The two introspection queries are external collaborators: what they
//! returned is handed in as plain values, and every decision taken on those
//! values — the bounded resize-and-retry protocol of the enumeration query,
//! the traversal of the snapshot, and the final heuristic — is made here.

use vstd::prelude::*;

use crate::error::QueryError;
use crate::error::query_error_of_status;
use crate::error::spec_query_error_of_status;
use crate::record::classify;
use crate::record::spec_classify;
use crate::snapshot::find_process;
use crate::snapshot::spec_find_process;

verus! {

/// Number of times the enumeration query is issued at most: one attempt to
/// discover the required size, one to fetch the data.
pub const MAX_QUERY_ATTEMPTS: u32 = 2;

/// What resolving the parent process identifier returned.
#[derive(Clone, Copy, Debug, PartialEq, Eq, Structural)]
pub enum ParentQueryReply {
    /// The query succeeded with the parent's process identifier.
    Resolved(u64),
    /// The query failed with the given status code.
    Failed(u32),
}

/// The status one attempt of the system-wide enumeration query returned.
#[derive(Clone, Copy, Debug, PartialEq, Eq, Structural)]
pub enum SystemQueryStatus {
    /// The query succeeded and reported this many bytes of data.
    Filled {
        /// Number of bytes the query wrote.
        return_len: u32,
    },
    /// The buffer was too small; the query reported the required length.
    LengthMismatch {
        /// Number of bytes the query asks for.
        required: u32,
    },
    /// The query failed with the given status code.
    Failed {
        /// The raw status code.
        status: u32,
    },
}

/// What the enumeration protocol does after one attempt.
#[derive(Clone, Copy, Debug, PartialEq, Eq, Structural)]
pub enum EnumAction {
    /// The buffer holds the snapshot; proceed to traversal.
    Accept,
    /// Enlarge the buffer to `capacity` bytes and query again.
    Retry {
        /// Number of bytes the next attempt's buffer must hold.
        capacity: u32,
    },
    /// Give up and surface this error.
    Reject(QueryError),
}

/// The protocol's decision after attempt number `attempt` (counted from 0)
/// came back with `status`: success with data is accepted, a length mismatch
/// asks for one retry sized to the reported requirement, and anything else —
/// a mismatch on the last allowed attempt, a zero reported length, or any
/// other failure — is rejected.
pub open spec fn spec_enumeration_step(attempt: u32, status: SystemQueryStatus) -> EnumAction {
    match status {
        SystemQueryStatus::Filled { return_len } => if return_len == 0 {
            EnumAction::Reject(QueryError::BufferTooSmall)
        } else {
            EnumAction::Accept
        },
        SystemQueryStatus::LengthMismatch { required } => if required == 0 || attempt
            >= MAX_QUERY_ATTEMPTS - 1 {
            EnumAction::Reject(QueryError::BufferTooSmall)
        } else {
            EnumAction::Retry { capacity: required }
        },
        SystemQueryStatus::Failed { status } => EnumAction::Reject(
            spec_query_error_of_status(status),
        ),
    }
}

/// Decide how the enumeration protocol goes on after one query attempt.
pub fn enumeration_step(attempt: u32, status: SystemQueryStatus) -> (a: EnumAction)
    ensures
        a == spec_enumeration_step(attempt, status),
{
    match status {
        SystemQueryStatus::Filled { return_len } => {
            if return_len == 0 {
                EnumAction::Reject(QueryError::BufferTooSmall)
            } else {
                EnumAction::Accept
            }
        },
        SystemQueryStatus::LengthMismatch { required } => {
            if required == 0 || attempt >= MAX_QUERY_ATTEMPTS - 1 {
                EnumAction::Reject(QueryError::BufferTooSmall)
            } else {
                EnumAction::Retry { capacity: required }
            }
        },
        SystemQueryStatus::Failed { status } => EnumAction::Reject(query_error_of_status(status)),
    }
}

/// One attempt's reply to the enumeration query: its status, the buffer as
/// the query left it, and the address the buffer's first byte had when the
/// query filled it.
pub struct SystemQueryReply {
    /// The status the attempt returned.
    pub status: SystemQueryStatus,
    /// The buffer as the attempt left it.
    pub data: Vec<u8>,
    /// Address of the buffer's first byte when the query ran.
    pub base: u64,
}

/// Mathematical form of a [`SystemQueryReply`].
pub struct SpecSystemQueryReply {
    /// The status the attempt returned.
    pub status: SystemQueryStatus,
    /// The buffer's bytes.
    pub data: Seq<u8>,
    /// Address of the buffer's first byte when the query ran.
    pub base: u64,
}

impl View for SystemQueryReply {
    type V = SpecSystemQueryReply;

    open spec fn view(&self) -> SpecSystemQueryReply {
        SpecSystemQueryReply { status: self.status, data: self.data@, base: self.base }
    }
}

/// The snapshot the two-attempt protocol settles on, given the replies of
/// the first and — where one was needed — second attempt; or the error on
/// which it gives up.
pub open spec fn spec_enumerate(first: SpecSystemQueryReply, second: SpecSystemQueryReply) -> Result<
    (Seq<u8>, u64),
    QueryError,
> {
    match spec_enumeration_step(0, first.status) {
        EnumAction::Accept => Result::Ok((first.data, first.base)),
        EnumAction::Reject(e) => Result::Err(e),
        EnumAction::Retry { capacity } => match spec_enumeration_step(1, second.status) {
            EnumAction::Accept => Result::Ok((second.data, second.base)),
            EnumAction::Reject(e) => Result::Err(e),
            EnumAction::Retry { .. } => Result::Err(QueryError::BufferTooSmall),
        },
    }
}

/// The detection verdict, given what the two introspection queries returned:
/// a failed parent resolution or a failed enumeration surfaces its error;
/// otherwise the parent's record is looked up in the snapshot and the
/// heuristic decides the boolean.
pub open spec fn spec_detect(
    parent: ParentQueryReply,
    first: SpecSystemQueryReply,
    second: SpecSystemQueryReply,
) -> Result<bool, QueryError> {
    match parent {
        ParentQueryReply::Failed(status) => Result::Err(spec_query_error_of_status(status)),
        ParentQueryReply::Resolved(pid) => match spec_enumerate(first, second) {
            Result::Err(e) => Result::Err(e),
            Result::Ok((data, base)) => Result::Ok(
                spec_classify(spec_find_process(data, base, pid)),
            ),
        },
    }
}

/// Run the whole detection over recorded query replies: propagate a parent
/// resolution failure, settle the enumeration protocol on a snapshot, find
/// the parent's record in it and classify it.
pub fn detect_with_replies(
    parent: ParentQueryReply,
    first: &SystemQueryReply,
    second: &SystemQueryReply,
) -> (r: Result<bool, QueryError>)
    ensures
        r == spec_detect(parent, first@, second@),
{
    match parent {
        ParentQueryReply::Failed(status) => Result::Err(query_error_of_status(status)),
        ParentQueryReply::Resolved(pid) => match enumeration_step(0, first.status) {
            EnumAction::Accept => Result::Ok(
                classify(&find_process(pid, &first.data, first.base)),
            ),
            EnumAction::Reject(e) => Result::Err(e),
            EnumAction::Retry { capacity: _ } => match enumeration_step(1, second.status) {
                EnumAction::Accept => Result::Ok(
                    classify(&find_process(pid, &second.data, second.base)),
                ),
                EnumAction::Reject(e) => Result::Err(e),
                EnumAction::Retry { .. } => Result::Err(QueryError::BufferTooSmall),
            },
        },
    }
}

/// A first attempt that comes back "too small, `required` bytes are needed"
/// is retried exactly once, with a buffer of at least `required` bytes; an
/// attempt that succeeds with data is never retried.
pub proof fn lemma_resize_retry(required: u32, return_len: u32)
    requires
        required > 0,
    ensures
        spec_enumeration_step(0, SystemQueryStatus::LengthMismatch { required })
            == (EnumAction::Retry { capacity: required }),
        forall|attempt: u32|
            #[trigger] spec_enumeration_step(attempt, SystemQueryStatus::Filled { return_len })
                != (EnumAction::Retry { capacity: required }),
{
}

/// Repeated detections over unchanged query replies agree: the verdict is a
/// function of the queried process state alone.
pub proof fn lemma_detection_idempotent(
    parent: ParentQueryReply,
    first: SpecSystemQueryReply,
    second: SpecSystemQueryReply,
    r1: Result<bool, QueryError>,
    r2: Result<bool, QueryError>,
)
    requires
        r1 == spec_detect(parent, first, second),
        r2 == spec_detect(parent, first, second),
    ensures
        r1 == r2,
{
}

} // verus!
