//! Open modes, permission bits and protection flags.
//!
//! The numbers are those of the C library for Linux on x86-64 and AArch64;
//! the functions at the top of the file read them from the `libc` crate.
use vstd::prelude::*;

verus! {

/// Access mode: read only.
pub open spec fn spec_o_rdonly() -> i32 {
    0
}

/// Access mode: write only.
pub open spec fn spec_o_wronly() -> i32 {
    1
}

/// Access mode: read and write.
pub open spec fn spec_o_rdwr() -> i32 {
    2
}

/// Open flag: create the object if it does not exist.
pub open spec fn spec_o_creat() -> i32 {
    64
}

/// Pages may be read.
pub open spec fn spec_prot_read() -> i32 {
    1
}

/// Pages may be written.
pub open spec fn spec_prot_write() -> i32 {
    2
}

/// Updates to the mapping are visible to every process that maps the same
/// region.
pub open spec fn spec_map_shared() -> i32 {
    1
}

/// The `errno` value for an invalid argument.
pub open spec fn spec_einval() -> i32 {
    22
}

/// The address by which `mmap` reports failure: all bits set.
pub open spec fn spec_map_failed() -> usize {
    usize::MAX
}

/// Owner may read and write.
pub const PERM_OWNER: u32 = 0o600;

/// Owner and group may read and write.
pub const PERM_GROUP: u32 = 0o660;

/// Everyone may read and write.
pub const PERM_EVERYONE: u32 = 0o666;

/// Reads `libc::O_RDONLY`. Trusted: that the constant is 0, as `libc`
/// defines it for every Linux target.
#[verifier::external_body]
pub(crate) fn o_rdonly() -> (r: i32)
    ensures
        r == spec_o_rdonly(),
{
    libc::O_RDONLY
}

/// Reads `libc::O_WRONLY`. Trusted: that the constant is 1, as `libc`
/// defines it for every Linux target.
#[verifier::external_body]
pub(crate) fn o_wronly() -> (r: i32)
    ensures
        r == spec_o_wronly(),
{
    libc::O_WRONLY
}

/// Reads `libc::O_RDWR`. Trusted: that the constant is 2, as `libc` defines
/// it for every Linux target.
#[verifier::external_body]
pub(crate) fn o_rdwr() -> (r: i32)
    ensures
        r == spec_o_rdwr(),
{
    libc::O_RDWR
}

/// Reads `libc::O_CREAT`. Trusted: that the constant is 64 (octal 100), as
/// `libc` defines it for Linux on x86-64 and AArch64. MIPS and SPARC use
/// another bit; the library is not specified for them.
#[verifier::external_body]
pub(crate) fn o_creat() -> (r: i32)
    ensures
        r == spec_o_creat(),
{
    libc::O_CREAT
}

/// Reads `libc::PROT_READ`. Trusted: that the constant is 1, as `libc`
/// defines it for every Linux target.
#[verifier::external_body]
pub(crate) fn prot_read() -> (r: i32)
    ensures
        r == spec_prot_read(),
{
    libc::PROT_READ
}

/// Reads `libc::PROT_WRITE`. Trusted: that the constant is 2, as `libc`
/// defines it for every Linux target.
#[verifier::external_body]
pub(crate) fn prot_write() -> (r: i32)
    ensures
        r == spec_prot_write(),
{
    libc::PROT_WRITE
}

/// Reads `libc::MAP_SHARED`. Trusted: that the constant is 1, as `libc`
/// defines it for every Linux target.
#[verifier::external_body]
pub(crate) fn map_shared() -> (r: i32)
    ensures
        r == spec_map_shared(),
{
    libc::MAP_SHARED
}

/// Reads `libc::EINVAL`. Trusted: that the constant is 22, as `libc`
/// defines it for Linux.
#[verifier::external_body]
pub(crate) fn einval() -> (r: i32)
    ensures
        r == spec_einval(),
{
    libc::EINVAL
}

/// What a segment is opened with: the flags of the open call, the
/// permission bits of a newly created object, and the protection of the
/// mappings made from the descriptor later.
#[derive(Clone, Copy, Debug, PartialEq, Eq, Structural)]
pub struct OpenFlags {
    pub mode: i32,
    pub perm: u32,
    pub prot: i32,
}

impl OpenFlags {
    /// An existing object, read and write, owner only.
    pub open spec fn spec_open() -> OpenFlags {
        OpenFlags {
            mode: spec_o_rdwr(),
            perm: PERM_OWNER,
            prot: spec_prot_read() | spec_prot_write(),
        }
    }

    /// An existing object, read only.
    pub open spec fn spec_open_read_only() -> OpenFlags {
        OpenFlags { mode: spec_o_rdonly(), perm: PERM_OWNER, prot: spec_prot_read() }
    }

    /// Create or open, read and write, with the given permission bits.
    pub open spec fn spec_create_with(perm: u32) -> OpenFlags {
        OpenFlags {
            mode: spec_o_rdwr() | spec_o_creat(),
            perm,
            prot: spec_prot_read() | spec_prot_write(),
        }
    }

    /// Create or open, read and write, owner only.
    pub open spec fn spec_create() -> OpenFlags {
        Self::spec_create_with(PERM_OWNER)
    }

    /// Create or open, read and write, owner and group.
    pub open spec fn spec_create_shared_group() -> OpenFlags {
        Self::spec_create_with(PERM_GROUP)
    }

    /// Create or open, read and write, everyone.
    pub open spec fn spec_create_shared_everyone() -> OpenFlags {
        Self::spec_create_with(PERM_EVERYONE)
    }

    /// The protection matches the open mode: mappings of an object opened
    /// for reading only do not ask to write. The open call does not look at
    /// this; where it does not hold, the mapping call fails later.
    pub open spec fn spec_matched(self) -> bool {
        self.mode & (spec_o_wronly() | spec_o_rdwr()) == 0 ==> self.prot & spec_prot_write() == 0
    }

    /// Tells whether the protection matches the open mode.
    pub fn matched(&self) -> (b: bool)
        ensures
            b == self.spec_matched(),
    {
        let writing: i32 = o_wronly() | o_rdwr();
        self.mode & writing != 0 || self.prot & prot_write() == 0
    }

    /// Create or open, read and write, with the given permission bits.
    fn create_with(perm: u32) -> (f: OpenFlags)
        ensures
            f == Self::spec_create_with(perm),
    {
        OpenFlags { mode: o_rdwr() | o_creat(), perm, prot: prot_read() | prot_write() }
    }

    /// The flags of [`PosixShm::open`](crate::PosixShm::open).
    pub fn open() -> (f: OpenFlags)
        ensures
            f == Self::spec_open(),
    {
        OpenFlags { mode: o_rdwr(), perm: PERM_OWNER, prot: prot_read() | prot_write() }
    }

    /// The flags of [`PosixShm::open_read_only`](crate::PosixShm::open_read_only).
    pub fn open_read_only() -> (f: OpenFlags)
        ensures
            f == Self::spec_open_read_only(),
    {
        OpenFlags { mode: o_rdonly(), perm: PERM_OWNER, prot: prot_read() }
    }

    /// The flags of [`PosixShm::create`](crate::PosixShm::create).
    pub fn create() -> (f: OpenFlags)
        ensures
            f == Self::spec_create(),
    {
        Self::create_with(PERM_OWNER)
    }

    /// The flags of [`PosixShm::create_shared_group`](crate::PosixShm::create_shared_group).
    pub fn create_shared_group() -> (f: OpenFlags)
        ensures
            f == Self::spec_create_shared_group(),
    {
        Self::create_with(PERM_GROUP)
    }

    /// The flags of [`PosixShm::create_shared_everyone`](crate::PosixShm::create_shared_everyone).
    pub fn create_shared_everyone() -> (f: OpenFlags)
        ensures
            f == Self::spec_create_shared_everyone(),
    {
        Self::create_with(PERM_EVERYONE)
    }
}

} // verus!
