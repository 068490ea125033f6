use vstd::prelude::*;

verus! {

/// Errors of a vcpu.
#[derive(Debug, Clone, PartialEq, Eq)]
pub enum VcpuError {
    /// No vcpu has this id.
    VcpuNotCreated(usize),
    /// The guest did something that cannot be handled, as told here.
    GuestError(String),
}

} // verus!
