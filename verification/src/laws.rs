//! What holds of the operations together, stated over their models.
use crate::error::ShmError;
use crate::flags::{spec_o_creat, OpenFlags};
use crate::mapping::{release_outcome, whole_elements};
use crate::segment::{close_outcome, open_outcome, representable, with_mapping, SegmentView};
use vstd::prelude::*;

verus! {

/// Opening succeeds exactly when the name can be handed to the operating
/// system and the open call did not return -1. Every failure is an
/// `OpenFailed`, and a new segment has the name and the flags asked for,
/// the descriptor returned, and no mapping.
pub proof fn law_open_succeeds_iff(name: Seq<char>, flags: OpenFlags, fd: i32, errno: i32)
    ensures
        open_outcome(name, flags, fd, errno) is Ok <==> representable(name) && fd != -1,
        open_outcome(name, flags, fd, errno) matches Err(e) ==> e is OpenFailed,
        open_outcome(name, flags, fd, errno) matches Ok(s) ==> s.name == name && s.fd == fd
            && s.mode == flags.mode && s.perm == flags.perm && s.prot == flags.prot && s.map
            is None,
{
}

/// The presets in numbers. The three that create carry the create flag and
/// the permission bits 0600, 0660 and 0666; the two that open do not
/// create; only the read-only preset leaves write protection out, so that
/// in each preset the protection matches the open mode.
pub proof fn law_presets()
    ensures
        OpenFlags::spec_open() == (OpenFlags { mode: 2, perm: 0o600, prot: 3 }),
        OpenFlags::spec_open_read_only() == (OpenFlags { mode: 0, perm: 0o600, prot: 1 }),
        OpenFlags::spec_create() == (OpenFlags { mode: 66, perm: 0o600, prot: 3 }),
        OpenFlags::spec_create_shared_group() == (OpenFlags { mode: 66, perm: 0o660, prot: 3 }),
        OpenFlags::spec_create_shared_everyone() == (OpenFlags { mode: 66, perm: 0o666, prot: 3 }),
        OpenFlags::spec_create().mode & spec_o_creat() == spec_o_creat(),
        OpenFlags::spec_open().mode & spec_o_creat() == 0,
        OpenFlags::spec_open_read_only().mode & spec_o_creat() == 0,
        OpenFlags::spec_open().spec_matched(),
        OpenFlags::spec_open_read_only().spec_matched(),
        OpenFlags::spec_create().spec_matched(),
        OpenFlags::spec_create_shared_group().spec_matched(),
        OpenFlags::spec_create_shared_everyone().spec_matched(),
        !(OpenFlags { mode: 0, perm: 0o600, prot: 3 }).spec_matched(),
{
    assert(2i32 | 64i32 == 66i32) by (bit_vector);
    assert(1i32 | 2i32 == 3i32) by (bit_vector);
    assert(66i32 & 64 == 64) by (bit_vector);
    assert(2i32 & 64 == 0) by (bit_vector);
    assert(0i32 & 64 == 0) by (bit_vector);
    assert(2i32 & 3 == 2) by (bit_vector);
    assert(66i32 & 3 == 2) by (bit_vector);
    assert(0i32 & 3 == 0) by (bit_vector);
    assert(1i32 & 2 == 0) by (bit_vector);
    assert(3i32 & 2 == 2) by (bit_vector);
}

/// The last mapping wins: a segment that is mapped twice holds the second
/// window, as if the first had never been installed, and mapping changes
/// nothing else of the segment.
pub proof fn law_last_mapping_wins(
    s: SegmentView,
    addr1: usize,
    size1: usize,
    offset1: isize,
    addr2: usize,
    size2: usize,
    offset2: isize,
)
    ensures
        with_mapping(with_mapping(s, addr1, size1, offset1), addr2, size2, offset2)
            == with_mapping(s, addr2, size2, offset2),
        with_mapping(s, addr1, size1, offset1).map is Some,
        with_mapping(s, addr1, size1, offset1).map->0.size == size1,
        with_mapping(s, addr1, size1, offset1).map->0.offset == offset1,
        with_mapping(s, addr1, size1, offset1) == (SegmentView {
            map: with_mapping(s, addr1, size1, offset1).map,
            ..s
        }),
{
}

/// A duplicate is an independent open of the same name with the same
/// flags: it comes out as opening that name anew would, whatever mapping
/// the first handle holds, and it starts without one.
pub proof fn law_duplicate_is_fresh_open(s: SegmentView, fd: i32, errno: i32)
    requires
        representable(s.name),
    ensures
        open_outcome(s.name, OpenFlags { mode: s.mode, perm: s.perm, prot: s.prot }, fd, errno)
            == open_outcome(
            (SegmentView { map: None, ..s }).name,
            OpenFlags { mode: s.mode, perm: s.perm, prot: s.prot },
            fd,
            errno,
        ),
        fd != -1 ==> open_outcome(
            s.name,
            OpenFlags { mode: s.mode, perm: s.perm, prot: s.prot },
            fd,
            errno,
        ) == Ok::<SegmentView, ShmError>(SegmentView { fd, map: None, ..s }),
{
}

/// Closing succeeds exactly when no call that was made failed. A failed
/// release of the mapping is reported before a failed close, and what
/// `munmap` returned is ignored where no mapping was held.
pub proof fn law_close_reports_first_failure(
    mapped: bool,
    unmap_ret: i32,
    unmap_errno: i32,
    close_ret: i32,
    close_errno: i32,
)
    ensures
        close_outcome(mapped, unmap_ret, unmap_errno, close_ret, close_errno) is Ok <==> !(mapped
            && unmap_ret == -1) && close_ret != -1,
        mapped && unmap_ret == -1 ==> close_outcome(
            mapped,
            unmap_ret,
            unmap_errno,
            close_ret,
            close_errno,
        ) == Err::<(), ShmError>(ShmError::UnmapFailed(unmap_errno)),
        mapped ==> (close_outcome(mapped, unmap_ret, unmap_errno, close_ret, close_errno)
            is Err <== release_outcome(unmap_ret, unmap_errno) is Err),
        !mapped ==> close_outcome(mapped, unmap_ret, unmap_errno, close_ret, close_errno)
            == close_outcome(false, 0, 0, close_ret, close_errno),
{
}

/// A typed view never shows part of an element: of a window of `size`
/// bytes it holds `size / elem_size` elements, all of them inside the
/// window, and what is left after the last one is less than an element.
/// Where the size is a multiple of the element size nothing is left.
pub proof fn law_typed_view_truncates(size: nat, elem_size: nat)
    requires
        elem_size > 0,
    ensures
        whole_elements(size, elem_size) == size / elem_size,
        whole_elements(size, elem_size) * elem_size + size % elem_size == size,
        size % elem_size < elem_size,
        size % elem_size == 0 ==> whole_elements(size, elem_size) * elem_size == size,
{
    assert((size / elem_size) * elem_size + size % elem_size == size && size % elem_size
        < elem_size) by (nonlinear_arith)
        requires
            elem_size > 0,
    ;
}

} // verus!
