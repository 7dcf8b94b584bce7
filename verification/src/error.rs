//! The errors of the library, one per operating-system call that can fail.
use vstd::prelude::*;

verus! {

/// A failed operation, with the `errno` value that the operating system
/// reported for it.
#[derive(Clone, Copy, Debug, PartialEq, Eq, Structural)]
pub enum ShmError {
    /// The object could not be opened or created.
    OpenFailed(i32),
    /// The object could not be resized.
    ResizeFailed(i32),
    /// The size of the object could not be queried.
    StatFailed(i32),
    /// The mapping could not be created.
    MapFailed(i32),
    /// The mapping could not be released.
    UnmapFailed(i32),
    /// The descriptor could not be closed.
    CloseFailed(i32),
    /// The name could not be removed from the namespace.
    UnlinkFailed(i32),
}

impl ShmError {
    /// The `errno` value carried by the error, whatever the operation.
    pub open spec fn spec_cause(self) -> i32 {
        match self {
            ShmError::OpenFailed(e) => e,
            ShmError::ResizeFailed(e) => e,
            ShmError::StatFailed(e) => e,
            ShmError::MapFailed(e) => e,
            ShmError::UnmapFailed(e) => e,
            ShmError::CloseFailed(e) => e,
            ShmError::UnlinkFailed(e) => e,
        }
    }

    /// The `errno` value that the operating system reported.
    pub fn cause(&self) -> (e: i32)
        ensures
            e == self.spec_cause(),
    {
        match self {
            ShmError::OpenFailed(e) => *e,
            ShmError::ResizeFailed(e) => *e,
            ShmError::StatFailed(e) => *e,
            ShmError::MapFailed(e) => *e,
            ShmError::UnmapFailed(e) => *e,
            ShmError::CloseFailed(e) => *e,
            ShmError::UnlinkFailed(e) => *e,
        }
    }
}

} // verus!
