//! The named shared-memory object, its descriptor and its mapping.
use crate::error::ShmError;
use crate::flags::{einval, map_shared, spec_einval, spec_map_failed, spec_map_shared, OpenFlags};
use crate::mapping::{MappingView, PosixShmMap};
use crate::syscall::SysCall;
use vstd::prelude::*;
use vstd::string::StringSliceAdditionalSpecFns;
use vstd::utf8::encode_utf8;

verus! {

/// What a segment is: the name it was opened by, its descriptor, the flags
/// fixed when it was opened, and the mapping it holds, if any.
pub ghost struct SegmentView {
    pub name: Seq<char>,
    pub fd: i32,
    pub mode: i32,
    pub perm: u32,
    pub prot: i32,
    pub map: Option<MappingView>,
}

/// An open shared-memory object. It holds at most one mapping; a new one
/// displaces the one held, which is handed back to be released.
#[derive(Debug)]
pub struct PosixShm {
    object: OpenObject,
    map_: Option<PosixShmMap>,
}

/// The open object: what is fixed when a segment is made.
#[derive(Debug)]
struct OpenObject {
    name: String,
    fd: i32,
    mode: i32,
    perm: u32,
    prot: i32,
}

impl OpenObject {
    /// The name can be handed to the operating system, and the descriptor
    /// is one that an open call returned.
    #[verifier::type_invariant]
    spec fn inv(&self) -> bool {
        representable(self.name@) && self.fd != -1
    }
}

impl View for PosixShm {
    type V = SegmentView;

    closed spec fn view(&self) -> SegmentView {
        SegmentView {
            name: self.object.name@,
            fd: self.object.fd,
            mode: self.object.mode,
            perm: self.object.perm,
            prot: self.object.prot,
            map: match self.map_ {
                Some(m) => Some(m@),
                None => None,
            },
        }
    }
}

/// A name can be handed to the operating system as a C string: none of the
/// bytes of its UTF-8 form is zero.
pub open spec fn representable(name: Seq<char>) -> bool {
    forall|i: int| 0 <= i < encode_utf8(name).len() ==> #[trigger] encode_utf8(name)[i] != 0u8
}

/// A size that `fstat` reported can be the length of a mapping.
pub open spec fn mappable(st_size: i64) -> bool {
    0 <= st_size <= usize::MAX
}

/// What opening comes to. A name that cannot be a C string is refused
/// before any call; otherwise the open fails exactly when `shm_open`
/// returned -1. A new segment holds no mapping.
pub open spec fn open_outcome(
    name: Seq<char>,
    flags: OpenFlags,
    fd: i32,
    errno: i32,
) -> Result<SegmentView, ShmError> {
    if !representable(name) {
        Err(ShmError::OpenFailed(spec_einval()))
    } else if fd == -1 {
        Err(ShmError::OpenFailed(errno))
    } else {
        Ok(SegmentView { name, fd, mode: flags.mode, perm: flags.perm, prot: flags.prot, map: None })
    }
}

/// The segment `s` with a new mapping in place of the one it held.
pub open spec fn with_mapping(s: SegmentView, addr: usize, size: usize, offset: isize) -> SegmentView {
    SegmentView { map: Some(MappingView { addr, size, offset }), ..s }
}

/// What a result of opening says: the segment by its view, or the error.
pub open spec fn opened(r: Result<PosixShm, ShmError>) -> Result<SegmentView, ShmError> {
    match r {
        Ok(s) => Ok(s@),
        Err(e) => Err(e),
    }
}

/// The view of a mapping that may be there.
pub open spec fn held(m: Option<PosixShmMap>) -> Option<MappingView> {
    match m {
        Some(m) => Some(m@),
        None => None,
    }
}

/// What closing comes to. The mapping, if one is held, is released first
/// and the descriptor closed after it; the first of the two that fails is
/// the error.
pub open spec fn close_outcome(
    mapped: bool,
    unmap_ret: i32,
    unmap_errno: i32,
    close_ret: i32,
    close_errno: i32,
) -> Result<(), ShmError> {
    if mapped && unmap_ret == -1 {
        Err(ShmError::UnmapFailed(unmap_errno))
    } else if close_ret == -1 {
        Err(ShmError::CloseFailed(close_errno))
    } else {
        Ok(())
    }
}

/// Tells whether a name can be handed to the operating system.
pub fn name_is_representable(name: &str) -> (ok: bool)
    ensures
        ok == representable(name@),
{
    let bytes = name.as_bytes();
    let mut i: usize = 0;
    while i < bytes.len()
        invariant
            i <= bytes.len(),
            bytes@ == encode_utf8(name@),
            forall|j: int| 0 <= j < i ==> #[trigger] bytes@[j] != 0u8,
        decreases bytes.len() - i,
    {
        if bytes[i] == 0 {
            return false;
        }
        i += 1;
    }
    true
}

impl PosixShm {
    /// The call that opens or creates the object `name`. A name with a zero
    /// byte in it is refused here, and no call is made.
    pub fn open_mode_call(name: &str, mode: i32, perm: u32) -> (r: Result<SysCall, ShmError>)
        ensures
            representable(name@) ==> (r matches Ok(c) && c.is_shm_open(name@, mode, perm)),
            !representable(name@) ==> r == Err::<SysCall, ShmError>(
                ShmError::OpenFailed(spec_einval()),
            ),
    {
        if name_is_representable(name) {
            Ok(SysCall::ShmOpen { name: name.to_owned(), oflag: mode, mode: perm })
        } else {
            Err(ShmError::OpenFailed(einval()))
        }
    }

    /// Makes the segment, given what `shm_open` returned for
    /// [`open_mode_call`](Self::open_mode_call): the descriptor, or -1 and
    /// the reason in `errno`. `prot` is the protection of the mappings made
    /// later.
    pub fn open_mode(name: &str, mode: i32, perm: u32, prot: i32, fd: i32, errno: i32) -> (r: Result<
        PosixShm,
        ShmError,
    >)
        ensures
            opened(r) == open_outcome(name@, OpenFlags { mode, perm, prot }, fd, errno),
    {
        if !name_is_representable(name) {
            Err(ShmError::OpenFailed(einval()))
        } else if fd == -1 {
            Err(ShmError::OpenFailed(errno))
        } else {
            Ok(PosixShm { object: OpenObject { name: name.to_owned(), fd, mode, perm, prot }, map_: None })
        }
    }

    /// Opens an existing object for reading and writing.
    pub fn open(name: &str, fd: i32, errno: i32) -> (r: Result<PosixShm, ShmError>)
        ensures
            opened(r) == open_outcome(name@, OpenFlags::spec_open(), fd, errno),
    {
        let f = OpenFlags::open();
        Self::open_mode(name, f.mode, f.perm, f.prot, fd, errno)
    }

    /// Opens an existing object for reading only.
    pub fn open_read_only(name: &str, fd: i32, errno: i32) -> (r: Result<PosixShm, ShmError>)
        ensures
            opened(r) == open_outcome(name@, OpenFlags::spec_open_read_only(), fd, errno),
    {
        let f = OpenFlags::open_read_only();
        Self::open_mode(name, f.mode, f.perm, f.prot, fd, errno)
    }

    /// Creates or opens an object for reading and writing; a new object is
    /// the owner's alone.
    pub fn create(name: &str, fd: i32, errno: i32) -> (r: Result<PosixShm, ShmError>)
        ensures
            opened(r) == open_outcome(name@, OpenFlags::spec_create(), fd, errno),
    {
        let f = OpenFlags::create();
        Self::open_mode(name, f.mode, f.perm, f.prot, fd, errno)
    }

    /// Creates or opens an object for reading and writing; a new object is
    /// open to the owner and the group.
    pub fn create_shared_group(name: &str, fd: i32, errno: i32) -> (r: Result<PosixShm, ShmError>)
        ensures
            opened(r) == open_outcome(name@, OpenFlags::spec_create_shared_group(), fd, errno),
    {
        let f = OpenFlags::create_shared_group();
        Self::open_mode(name, f.mode, f.perm, f.prot, fd, errno)
    }

    /// Creates or opens an object for reading and writing; a new object is
    /// open to everyone.
    pub fn create_shared_everyone(name: &str, fd: i32, errno: i32) -> (r: Result<
        PosixShm,
        ShmError,
    >)
        ensures
            opened(r) == open_outcome(name@, OpenFlags::spec_create_shared_everyone(), fd, errno),
    {
        let f = OpenFlags::create_shared_everyone();
        Self::open_mode(name, f.mode, f.perm, f.prot, fd, errno)
    }

    /// The name the segment was opened by. It can always be handed to the
    /// operating system.
    pub fn name(&self) -> (n: &str)
        ensures
            n@ == self@.name,
            representable(n@),
    {
        proof {
            use_type_invariant(&self.object);
        }
        self.object.name.as_str()
    }

    /// The descriptor. It is never -1: a segment exists only after an open
    /// call that succeeded.
    pub fn fd(&self) -> (fd: i32)
        ensures
            fd == self@.fd,
            fd != -1,
    {
        proof {
            use_type_invariant(&self.object);
        }
        self.object.fd
    }

    /// The flags the segment was opened with.
    pub fn flags(&self) -> (f: OpenFlags)
        ensures
            f == (OpenFlags { mode: self@.mode, perm: self@.perm, prot: self@.prot }),
    {
        OpenFlags { mode: self.object.mode, perm: self.object.perm, prot: self.object.prot }
    }

    /// Tells whether the segment holds a mapping.
    pub fn has_map(&self) -> (b: bool)
        ensures
            b == self@.map is Some,
    {
        self.map_.is_some()
    }

    /// The call that sets the size of the object to `size` bytes.
    pub fn truncate_call(&self, size: isize) -> (c: SysCall)
        ensures
            c == (SysCall::Ftruncate { fd: self@.fd, size: size as i64 }),
    {
        SysCall::Ftruncate { fd: self.object.fd, size: size as i64 }
    }

    /// Takes what `ftruncate` returned for
    /// [`truncate_call`](Self::truncate_call). The segment stays as it was,
    /// and so does the mapping it holds: its window is not refreshed, and
    /// only a new mapping sees the new size.
    pub fn truncate(&mut self, ret: i32, errno: i32) -> (r: Result<(), ShmError>)
        ensures
            *final(self) == *old(self),
            ret == -1 ==> r == Err::<(), ShmError>(ShmError::ResizeFailed(errno)),
            ret != -1 ==> r == Ok::<(), ShmError>(()),
    {
        if ret == -1 {
            Err(ShmError::ResizeFailed(errno))
        } else {
            Ok(())
        }
    }

    /// The call that maps `size` bytes of the object from byte `offset` on,
    /// with the protection fixed when the segment was opened, shared with
    /// every other mapping of the region.
    pub fn map_call(&self, size: usize, offset: isize) -> (c: SysCall)
        ensures
            c == (SysCall::Mmap {
                length: size,
                prot: self@.prot,
                flags: spec_map_shared(),
                fd: self@.fd,
                offset: offset as i64,
            }),
    {
        SysCall::Mmap {
            length: size,
            prot: self.object.prot,
            flags: map_shared(),
            fd: self.object.fd,
            offset: offset as i64,
        }
    }

    /// Installs the mapping, given the address that `mmap` returned for
    /// [`map_call`](Self::map_call). On failure the segment keeps what it
    /// held. On success the mapping held before, if any, is handed back: it
    /// is the caller's to release.
    pub fn map(&mut self, size: usize, offset: isize, addr: usize, errno: i32) -> (r: Result<
        Option<PosixShmMap>,
        ShmError,
    >)
        ensures
            addr == spec_map_failed() ==> final(self)@ == old(self)@ && (r matches Err(e) && e
                == ShmError::MapFailed(errno)),
            addr != spec_map_failed() ==> final(self)@ == with_mapping(
                old(self)@,
                addr,
                size,
                offset,
            ) && (r matches Ok(prev) && held(prev) == old(self)@.map),
    {
        if addr == usize::MAX {
            Err(ShmError::MapFailed(errno))
        } else {
            let prev = self.map_.take();
            self.map_ = Some(PosixShmMap::new(addr, size, offset));
            Ok(prev)
        }
    }

    /// The call that queries the size of the object.
    pub fn stat_call(&self) -> (c: SysCall)
        ensures
            c == (SysCall::Fstat { fd: self@.fd }),
    {
        SysCall::Fstat { fd: self.object.fd }
    }

    /// The call that maps the whole object, given what `fstat` returned for
    /// [`stat_call`](Self::stat_call) and the size it reported.
    pub fn map_all_call(&self, stat_ret: i32, st_size: i64, stat_errno: i32) -> (r: Result<
        SysCall,
        ShmError,
    >)
        ensures
            stat_ret == -1 ==> r == Err::<SysCall, ShmError>(ShmError::StatFailed(stat_errno)),
            stat_ret != -1 && !mappable(st_size) ==> r == Err::<SysCall, ShmError>(
                ShmError::MapFailed(spec_einval()),
            ),
            stat_ret != -1 && mappable(st_size) ==> r == Ok::<SysCall, ShmError>(
                SysCall::Mmap {
                    length: st_size as usize,
                    prot: self@.prot,
                    flags: spec_map_shared(),
                    fd: self@.fd,
                    offset: 0,
                },
            ),
    {
        if stat_ret == -1 {
            Err(ShmError::StatFailed(stat_errno))
        } else if st_size < 0 || st_size as u64 > usize::MAX as u64 {
            Err(ShmError::MapFailed(einval()))
        } else {
            Ok(self.map_call(st_size as usize, 0))
        }
    }

    /// Installs a mapping of the whole object, given what `fstat` returned
    /// and, where [`map_all_call`](Self::map_all_call) gave a call, the
    /// address that `mmap` returned for it. The window is exactly the size
    /// that `fstat` reported, from byte 0.
    pub fn map_all(
        &mut self,
        stat_ret: i32,
        st_size: i64,
        stat_errno: i32,
        addr: usize,
        map_errno: i32,
    ) -> (r: Result<Option<PosixShmMap>, ShmError>)
        ensures
            stat_ret == -1 ==> final(self)@ == old(self)@ && (r matches Err(e) && e
                == ShmError::StatFailed(stat_errno)),
            stat_ret != -1 && !mappable(st_size) ==> final(self)@ == old(self)@ && (r matches Err(e)
                && e == ShmError::MapFailed(spec_einval())),
            stat_ret != -1 && mappable(st_size) && addr == spec_map_failed() ==> final(self)@
                == old(self)@ && (r matches Err(e) && e == ShmError::MapFailed(map_errno)),
            stat_ret != -1 && mappable(st_size) && addr != spec_map_failed() ==> final(self)@
                == with_mapping(old(self)@, addr, st_size as usize, 0) && (r matches Ok(prev)
                && held(prev) == old(self)@.map),
    {
        if stat_ret == -1 {
            Err(ShmError::StatFailed(stat_errno))
        } else if st_size < 0 || st_size as u64 > usize::MAX as u64 {
            Err(ShmError::MapFailed(einval()))
        } else {
            self.map(st_size as usize, 0, addr, map_errno)
        }
    }

    /// The mapping that the segment holds.
    pub fn get_map(&self) -> (m: &PosixShmMap)
        requires
            self@.map is Some,
        ensures
            Some(m@) == self@.map,
    {
        self.map_.as_ref().unwrap()
    }

    /// The mapping that the segment holds, for access that needs it
    /// exclusively.
    pub fn get_mut_map(&mut self) -> (m: &mut PosixShmMap)
        requires
            old(self)@.map is Some,
        ensures
            Some(m@) == old(self)@.map,
            final(self)@ == (SegmentView { map: Some(final(m)@), ..old(self)@ }),
    {
        self.map_.as_mut().unwrap()
    }

    /// Hands out the mapping that the segment holds, if any, to be released
    /// while the segment stays open.
    pub fn take_map(&mut self) -> (m: Option<PosixShmMap>)
        ensures
            held(m) == old(self)@.map,
            final(self)@ == (SegmentView { map: None, ..old(self)@ }),
    {
        self.map_.take()
    }

    /// The call that removes the name from the namespace.
    pub fn unlink_call(&self) -> (c: SysCall)
        ensures
            c.is_shm_unlink(self@.name),
    {
        SysCall::ShmUnlink { name: self.object.name.clone() }
    }

    /// Takes what `shm_unlink` returned for
    /// [`unlink_call`](Self::unlink_call). The segment is not touched: its
    /// descriptor and its mapping stay valid after the name is gone.
    pub fn unlink(&self, ret: i32, errno: i32) -> (r: Result<(), ShmError>)
        ensures
            ret == -1 ==> r == Err::<(), ShmError>(ShmError::UnlinkFailed(errno)),
            ret != -1 ==> r == Ok::<(), ShmError>(()),
    {
        if ret == -1 {
            Err(ShmError::UnlinkFailed(errno))
        } else {
            Ok(())
        }
    }

    /// The call that opens the same name again, with the same flags and
    /// permission bits, for a second, independent descriptor.
    pub fn duplicate_call(&self) -> (c: SysCall)
        ensures
            c.is_shm_open(self@.name, self@.mode, self@.perm),
    {
        SysCall::ShmOpen { name: self.object.name.clone(), oflag: self.object.mode, mode: self.object.perm }
    }

    /// Makes the duplicate, given what `shm_open` returned for
    /// [`duplicate_call`](Self::duplicate_call). It has the name and the
    /// flags of this segment, a descriptor of its own, and no mapping yet.
    pub fn duplicate(&self, fd: i32, errno: i32) -> (r: Result<PosixShm, ShmError>)
        ensures
            opened(r) == open_outcome(
                self@.name,
                OpenFlags { mode: self@.mode, perm: self@.perm, prot: self@.prot },
                fd,
                errno,
            ),
    {
        proof {
            use_type_invariant(&self.object);
        }
        if fd == -1 {
            Err(ShmError::OpenFailed(errno))
        } else {
            Ok(
                PosixShm {
                    object: OpenObject {
                        name: self.object.name.clone(),
                        fd,
                        mode: self.object.mode,
                        perm: self.object.perm,
                        prot: self.object.prot,
                    },
                    map_: None,
                },
            )
        }
    }

    /// The call that maps, on the duplicate `dup`, the window that this
    /// segment holds; none where it holds no mapping.
    pub fn duplicate_map_call(&self, dup: &PosixShm) -> (c: Option<SysCall>)
        ensures
            self@.map is None ==> c is None,
            self@.map matches Some(m) ==> c == Some(
                SysCall::Mmap {
                    length: m.size,
                    prot: dup@.prot,
                    flags: spec_map_shared(),
                    fd: dup@.fd,
                    offset: m.offset as i64,
                },
            ),
    {
        match &self.map_ {
            Some(m) => Some(dup.map_call(m.size(), m.offset())),
            None => None,
        }
    }

    /// Installs on the duplicate `dup` the window that this segment holds,
    /// given the address that `mmap` returned for
    /// [`duplicate_map_call`](Self::duplicate_map_call). Where this segment
    /// holds no mapping there was no call, and the duplicate stays as it
    /// is.
    pub fn duplicate_map(&self, dup: &mut PosixShm, addr: usize, errno: i32) -> (r: Result<
        Option<PosixShmMap>,
        ShmError,
    >)
        ensures
            self@.map is None ==> final(dup)@ == old(dup)@ && (r matches Ok(prev) && prev is None),
            self@.map is Some && addr == spec_map_failed() ==> final(dup)@ == old(dup)@ && (
            r matches Err(e) && e == ShmError::MapFailed(errno)),
            self@.map is Some && addr != spec_map_failed() ==> final(dup)@ == with_mapping(
                old(dup)@,
                addr,
                self@.map->0.size,
                self@.map->0.offset,
            ) && (r matches Ok(prev) && held(prev) == old(dup)@.map),
    {
        match &self.map_ {
            Some(m) => dup.map(m.size(), m.offset(), addr, errno),
            None => Ok(None),
        }
    }

    /// The calls that end the segment, in the order in which they are to
    /// be made: the mapping, if one is held, is released first, and the
    /// descriptor is closed after it.
    pub fn close_calls(&self) -> (calls: Vec<SysCall>)
        ensures
            self@.map is None ==> calls@ == seq![SysCall::Close { fd: self@.fd }],
            self@.map matches Some(m) ==> calls@ == seq![
                SysCall::Munmap { addr: m.addr, length: m.size },
                SysCall::Close { fd: self@.fd },
            ],
    {
        let mut calls: Vec<SysCall> = Vec::new();
        match &self.map_ {
            Some(m) => {
                calls.push(m.unmap_call());
            },
            None => {},
        }
        calls.push(SysCall::Close { fd: self.object.fd });
        proof {
            if self@.map is None {
                assert(calls@ =~= seq![SysCall::Close { fd: self@.fd }]);
            } else {
                let m = self@.map->0;
                assert(calls@ =~= seq![
                    SysCall::Munmap { addr: m.addr, length: m.size },
                    SysCall::Close { fd: self@.fd },
                ]);
            }
        }
        calls
    }

    /// Ends the segment, given what `munmap` and `close` returned for
    /// [`close_calls`](Self::close_calls). What `munmap` returned counts
    /// only where a mapping was held. Both calls are made whatever the
    /// first returned, and the first failure is the error.
    pub fn close(self, unmap_ret: i32, unmap_errno: i32, close_ret: i32, close_errno: i32) -> (r:
        Result<(), ShmError>)
        ensures
            r == close_outcome(self@.map is Some, unmap_ret, unmap_errno, close_ret, close_errno),
    {
        if self.map_.is_some() && unmap_ret == -1 {
            Err(ShmError::UnmapFailed(unmap_errno))
        } else if close_ret == -1 {
            Err(ShmError::CloseFailed(close_errno))
        } else {
            Ok(())
        }
    }
}

} // verus!
