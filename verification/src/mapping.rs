//! One window of a segment's bytes in the address space of the process.
use crate::error::ShmError;
use crate::syscall::SysCall;
use vstd::prelude::*;

verus! {

/// What a mapping is: where it starts in the address space, how many bytes
/// it spans, and at which byte of the object it begins.
pub ghost struct MappingView {
    pub addr: usize,
    pub size: usize,
    pub offset: isize,
}

/// An active mapping. The value is not `Clone`: releasing it consumes it,
/// so a mapping is released at most once and never used afterwards.
#[derive(Debug)]
pub struct PosixShmMap {
    data: usize,
    size: usize,
    offset: isize,
}

impl View for PosixShmMap {
    type V = MappingView;

    closed spec fn view(&self) -> MappingView {
        MappingView { addr: self.data, size: self.size, offset: self.offset }
    }
}

/// The number of whole elements of `elem_size` bytes in `size` bytes.
pub open spec fn whole_elements(size: nat, elem_size: nat) -> nat
    recommends
        elem_size > 0,
{
    size / elem_size
}

/// The elements of a typed view lie inside the window: the last whole
/// element ends at or before the last byte, and the bytes left over are
/// fewer than one element.
pub proof fn lemma_whole_elements_fit(size: nat, elem_size: nat)
    requires
        elem_size > 0,
    ensures
        whole_elements(size, elem_size) * elem_size <= size,
        size < (whole_elements(size, elem_size) + 1) * elem_size,
        forall|i: nat|
            i < whole_elements(size, elem_size) ==> #[trigger] (i * elem_size) + elem_size
                <= size,
{
    let n = whole_elements(size, elem_size);
    assert(n * elem_size <= size && size < (n + 1) * elem_size) by (nonlinear_arith)
        requires
            n == size / elem_size,
            elem_size > 0,
    ;
    assert forall|i: nat| i < n implies #[trigger] (i * elem_size) + elem_size <= size by {
        assert(i * elem_size + elem_size <= n * elem_size) by (nonlinear_arith)
            requires
                i < n,
        ;
    }
}

impl PosixShmMap {
    pub(crate) fn new(data: usize, size: usize, offset: isize) -> (m: PosixShmMap)
        ensures
            m@ == (MappingView { addr: data, size, offset }),
    {
        PosixShmMap { data, size, offset }
    }

    /// The address at which the window starts.
    pub fn addr(&self) -> (a: usize)
        ensures
            a == self@.addr,
    {
        self.data
    }

    /// The length of the window in bytes.
    pub fn size(&self) -> (n: usize)
        ensures
            n == self@.size,
    {
        self.size
    }

    /// The byte of the object at which the window begins.
    pub fn offset(&self) -> (o: isize)
        ensures
            o == self@.offset,
    {
        self.offset
    }

    /// The length of the window seen as elements of `elem_size` bytes: the
    /// number of whole elements, any remainder left out. There is no such
    /// view for elements of no size.
    pub fn typed_len(&self, elem_size: usize) -> (n: Option<usize>)
        ensures
            elem_size == 0 ==> n is None,
            elem_size > 0 ==> n == Some(whole_elements(self@.size as nat, elem_size as nat) as usize),
            n matches Some(k) ==> k * elem_size <= self@.size < (k + 1) * elem_size,
    {
        if elem_size == 0 {
            None
        } else {
            proof {
                lemma_whole_elements_fit(self.size as nat, elem_size as nat);
            }
            Some(self.size / elem_size)
        }
    }

    /// Where element `index` of a typed view starts, in bytes from the
    /// start of the window. `Some` exactly for the elements of the view,
    /// each of which ends inside the window.
    pub fn element_offset(&self, elem_size: usize, index: usize) -> (at: Option<usize>)
        ensures
            at is Some <==> elem_size > 0 && index < whole_elements(
                self@.size as nat,
                elem_size as nat,
            ),
            at matches Some(b) ==> b == index * elem_size && b + elem_size <= self@.size,
    {
        if elem_size == 0 || index >= self.size / elem_size {
            None
        } else {
            proof {
                lemma_whole_elements_fit(self.size as nat, elem_size as nat);
                assert((index as nat) * (elem_size as nat) + elem_size <= self.size);
            }
            Some(index * elem_size)
        }
    }

    /// The call that releases the mapping.
    pub fn unmap_call(&self) -> (c: SysCall)
        ensures
            c == (SysCall::Munmap { addr: self@.addr, length: self@.size }),
    {
        SysCall::Munmap { addr: self.data, length: self.size }
    }

    /// Ends the mapping, given what `munmap` returned for
    /// [`unmap_call`](Self::unmap_call). The mapping is gone either way.
    pub fn release(self, ret: i32, errno: i32) -> (r: Result<(), ShmError>)
        ensures
            r == release_outcome(ret, errno),
    {
        if ret == -1 {
            Err(ShmError::UnmapFailed(errno))
        } else {
            Ok(())
        }
    }
}

/// What releasing a mapping comes to: an error exactly when `munmap`
/// returned -1.
pub open spec fn release_outcome(ret: i32, errno: i32) -> Result<(), ShmError> {
    if ret == -1 {
        Err(ShmError::UnmapFailed(errno))
    } else {
        Ok(())
    }
}

} // verus!
