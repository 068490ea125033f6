use vstd::prelude::*;

verus! {

/// A vcpu of the hypervisor, with the handler of the device accesses that make it exit and the
/// handler of its power state calls (PSCI).
pub struct Vcpu<I, H, P> {
    pub vcpu_instance: I,
    pub device_vm_exit_handler: H,
    pub psci: P,
}

} // verus!
