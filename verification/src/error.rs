//! The uniform error type reported by every memory-primitive operation.

use vstd::prelude::*;

verus! {

/// Which lifecycle step of the allocation failed.
#[derive(Clone, Copy, Debug, PartialEq, Eq, Structural)]
pub enum ErrorKind {
    /// The backing region could not be allocated.
    Allocation,
    /// The region could not be pinned against swapping; commonly the
    /// platform's lockable-memory limit was exceeded.
    Lock,
    /// The hardware page protection could not be changed.
    ProtectionChange,
    /// The region could not be excluded from core dumps.
    DumpExclusion,
    /// The region could not be released.
    Deallocation,
}

/// A failure of one platform memory primitive, wrapping the platform's last
/// error code.
#[derive(Clone, Copy, Debug, PartialEq, Eq, Structural)]
pub struct MemoryError {
    /// Which lifecycle step failed.
    pub kind: ErrorKind,
    /// The platform error code reported by the failing call.
    pub code: i32,
}

impl MemoryError {
    /// Wrap the platform error code `code` reported while performing the
    /// step named by `kind`.
    pub fn new(kind: ErrorKind, code: i32) -> (e: MemoryError)
        ensures
            (e == MemoryError { kind, code }),
    {
        MemoryError { kind, code }
    }

    /// The platform error code this error wraps.
    pub fn inner(&self) -> (code: i32)
        ensures
            code == self.code,
    {
        self.code
    }
}

} // verus!
