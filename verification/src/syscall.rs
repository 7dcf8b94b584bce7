//! The calls that the library asks its driver to perform.
use vstd::prelude::*;

verus! {

/// One call into the operating system, with its arguments. The driver
/// performs it and hands the return value, and `errno`, to the function of
/// the library that the call was built for.
#[derive(Debug, PartialEq, Eq)]
pub enum SysCall {
    /// `shm_open(name, oflag, mode)`.
    ShmOpen { name: String, oflag: i32, mode: u32 },
    /// `ftruncate(fd, size)`.
    Ftruncate { fd: i32, size: i64 },
    /// `fstat(fd, ..)`, read for the size of the object.
    Fstat { fd: i32 },
    /// `mmap(null, length, prot, flags, fd, offset)`.
    Mmap { length: usize, prot: i32, flags: i32, fd: i32, offset: i64 },
    /// `munmap(addr, length)`.
    Munmap { addr: usize, length: usize },
    /// `close(fd)`.
    Close { fd: i32 },
    /// `shm_unlink(name)`.
    ShmUnlink { name: String },
}

impl SysCall {
    /// The call is `shm_open` of the given name, with the given flags and
    /// permission bits.
    pub open spec fn is_shm_open(self, name: Seq<char>, oflag: i32, mode: u32) -> bool {
        self matches SysCall::ShmOpen { name: n, oflag: o, mode: m } && n@ == name && o == oflag
            && m == mode
    }

    /// The call is `shm_unlink` of the given name.
    pub open spec fn is_shm_unlink(self, name: Seq<char>) -> bool {
        self matches SysCall::ShmUnlink { name: n } && n@ == name
    }
}

} // verus!
