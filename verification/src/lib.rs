//! Lifecycle core for POSIX shared-memory segments.
//!
//! The crate keeps the bookkeeping of a named shared-memory object, its
//! descriptor and its mapping, and decides what every operating-system call
//! is handed and what its return value means. It never performs a call
//! itself: each operation comes as a pair, one function that builds the
//! [`SysCall`] to perform and one that takes what the call returned.
pub mod error;
pub mod flags;
pub mod laws;
pub mod mapping;
pub mod segment;
pub mod syscall;

pub use error::ShmError;
pub use flags::OpenFlags;
pub use mapping::PosixShmMap;
pub use segment::PosixShm;
pub use syscall::SysCall;
