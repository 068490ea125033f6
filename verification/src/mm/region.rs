use vstd::prelude::*;

use crate::mm::allocator::Allocator;
use crate::mm::allocator::MemoryContainer;
use crate::mm::Error;

verus! {

/// Guest physical memory `[gpa, gpa + len)`, with the host memory behind it once allocated.
pub struct MemoryRegion<C> {
    pub gpa: u64,
    pub len: usize,
    pub memory: Option<C>,
}

impl<C> MemoryRegion<C> {
    /// `addr` lies in `[gpa, gpa + len)`.
    pub open spec fn holds(&self, addr: u64) -> bool {
        self.gpa <= addr && addr < self.gpa + self.len
    }
}

impl<C: MemoryContainer> MemoryRegion<C> {
    /// The host address of the region's first byte (meaningful once allocated).
    pub open spec fn base(&self) -> usize {
        self.memory->Some_0.spec_hva()
    }

    /// Same place, same size, same allocation state, and the same host memory where allocated.
    pub open spec fn same_shape(&self, other: &Self) -> bool {
        &&& self.gpa == other.gpa
        &&& self.len == other.len
        &&& self.memory is Some <==> other.memory is Some
        &&& self.memory is Some ==> self.memory->Some_0.spec_hva()
            == other.memory->Some_0.spec_hva() && self.memory->Some_0.spec_len()
            == other.memory->Some_0.spec_len()
    }
}

impl<C: MemoryContainer> MemoryRegion<C> {
    /// A region with no host memory behind it yet.
    pub fn placeholder(gpa: u64, len: usize) -> (r: Self)
        ensures
            r.gpa == gpa,
            r.len == len,
            r.memory is None,
    {
        MemoryRegion { gpa, len, memory: None }
    }

    /// Backs the region with `len` bytes from `allocator`, once: an error where it already has
    /// memory; else it asks the allocator once, keeps what it gives, or hands back its error.
    pub fn allocate<A>(&mut self, allocator: &A) -> (r: Result<(), Error>) where
        A: Allocator<Container = C>,

        ensures
            old(self).memory is Some ==> r == Err::<(), Error>(Error::MemoryAlreadyAllocated)
                && *final(self) == *old(self),
            old(self).memory is None ==> exists|answer: Result<C, Error>|
                {
                    &&& allocator.allocates(old(self).len, None, answer)
                    &&& answer matches Ok(c) ==> r is Ok && final(self).memory == Some(c)
                        && c.spec_len() == old(self).len && final(self).gpa == old(self).gpa
                        && final(self).len == old(self).len
                    &&& answer matches Err(e) ==> r == Err::<(), Error>(e) && *final(self)
                        == *old(self)
                },
    {
        if self.memory.is_some() {
            return Err(Error::MemoryAlreadyAllocated);
        }
        let answer = allocator.allocate(self.len, None);
        match answer {
            Ok(memory) => {
                self.memory = Some(memory);
                Ok(())
            },
            Err(e) => Err(e),
        }
    }

    /// The host address of the region's first byte, once allocated.
    pub fn to_hva(&mut self) -> (r: Option<usize>)
        ensures
            final(self).same_shape(old(self)),
            old(self).memory is Some ==> r == Some(old(self).base()),
            old(self).memory is None ==> r is None && *final(self) == *old(self),
    {
        match &mut self.memory {
            Some(c) => Some(c.to_hva()),
            None => None,
        }
    }

    /// The host address of the region's first byte; an error before allocation.
    pub fn try_to_hva(&mut self) -> (r: Result<usize, Error>)
        ensures
            final(self).same_shape(old(self)),
            old(self).memory is Some ==> r == Ok::<usize, Error>(old(self).base()),
            old(self).memory is None ==> r == Err::<usize, Error>(Error::MemoryIsNotAllocated)
                && *final(self) == *old(self),
    {
        match self.to_hva() {
            Some(hva) => Ok(hva),
            None => Err(Error::MemoryIsNotAllocated),
        }
    }
}

} // verus!
