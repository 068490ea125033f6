use vstd::prelude::*;

use crate::mm::Error;

verus! {

/// Host memory that backs a guest memory region.
pub trait MemoryContainer: Send + Sync + 'static {
    /// The host virtual address of the first byte.
    spec fn spec_hva(&self) -> usize;

    /// The number of bytes.
    spec fn spec_len(&self) -> usize;

    /// The host virtual address of the first byte; the memory stays where it is.
    fn to_hva(&mut self) -> (r: usize)
        ensures
            r == old(self).spec_hva(),
            final(self).spec_hva() == old(self).spec_hva(),
            final(self).spec_len() == old(self).spec_len(),
    ;
}

/// A source of host memory for guest memory regions.
pub trait Allocator {
    type Container: MemoryContainer;

    /// `r` is an answer that the allocator may give when asked for `len` bytes aligned to
    /// `align`.
    spec fn allocates(&self, len: usize, align: Option<usize>, r: Result<Self::Container, Error>) -> bool;

    /// Host memory of `len` bytes, aligned to `align` where one is given.
    fn allocate(&self, len: usize, align: Option<usize>) -> (r: Result<Self::Container, Error>)
        ensures
            self.allocates(len, align, r),
            r matches Ok(c) ==> c.spec_len() == len,
    ;
}

} // verus!
