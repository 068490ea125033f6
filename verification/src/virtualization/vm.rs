pub mod error;
pub mod state;

use vstd::prelude::*;

verus! {

/// The access rights of guest memory mapped into a machine.
#[derive(Clone, Copy, Debug, PartialEq, Eq)]
pub enum SetUserMemoryRegionFlags {
    ReadWriteExec,
}

} // verus!
