use vstd::prelude::*;

use crate::virtualization::vm::state::VmState;

verus! {

/// Errors of a virtual machine.
#[derive(Debug, Clone, PartialEq, Eq)]
pub enum VmError {
    /// No vcpu has this id.
    VcpuNotCreated(usize),
    /// Creating a vcpu failed, for this reason.
    CreateVcpuError(String),
    /// Creating the interrupt controller failed, for this reason.
    CreateIrqChipError(String),
    /// Installing the interrupt routes failed, for this reason.
    SetGsiRouting(String),
    /// Mapping guest memory failed, for this reason.
    SetUserMemoryRegionError(String),
    /// A memory region meets one already present.
    MemoryRegionOverlap,
    /// The machine is not in the state that the request needs.
    VmState { current: VmState },
    /// The debugger's listener could not be created.
    GdbListenerCreation,
    /// No interrupt number is left to hand out.
    AllocIrq,
}

} // verus!
