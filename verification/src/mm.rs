pub mod allocator;
pub mod manager;
pub mod region;

use vstd::prelude::*;

verus! {

/// Errors of guest memory management.
#[derive(Debug, Clone, Copy, PartialEq, Eq)]
pub enum Error {
    /// The allocator could not provide `len` bytes.
    AllocAnonymousMemoryFailed { len: usize },
    /// The region has no memory behind it yet.
    MemoryIsNotAllocated,
    /// The region already has memory behind it.
    MemoryAlreadyAllocated,
    /// No region holds this guest physical address.
    AccessInvalidGpa(u64),
    /// The access runs past the end of its region.
    MemoryOverflow,
}

} // verus!
