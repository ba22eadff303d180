//! The errors that segment, handle and condition operations report.
use vstd::prelude::*;

verus! {

/// Why an operation on a segment, a handle or a condition failed.
#[derive(Debug, Clone, Copy, PartialEq, Eq, Structural)]
pub enum SharedMemoryError {
    /// The OS could not back a new segment; carries the OS error code, or 0
    /// where the failure has none (a size of zero, an id collision).
    AllocationFailed(u32),
    /// No segment exists under the requested id.
    NotFound,
    /// The segment exists but may not be opened by this process.
    AccessDenied,
    /// Opening failed for another reason; carries the OS error code, or 0.
    OpenFailed(u32),
    /// The handle is 0 or has been destroyed.
    InvalidHandle,
    /// A byte range does not lie inside the segment.
    OutOfBounds,
    /// The condition's OS-level object failed or is corrupt.
    SyncFailed,
    /// The handle table has no room for another resource.
    TableFull,
}

} // verus!
