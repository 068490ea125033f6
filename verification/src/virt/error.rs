use vstd::prelude::*;

verus! {

/// Errors of the hypervisor back end.
#[derive(Debug, Clone, PartialEq, Eq)]
pub enum VirtError {
    /// The hypervisor could not be initialized, for this reason.
    FailedInitialize(String),
    /// The interrupt controller could not be set up, for this reason.
    InterruptControllerFailed(String),
}

} // verus!
