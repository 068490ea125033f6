use vstd::prelude::*;

use crate::vcpu::error::VcpuError;
use crate::vcpu::vcpu::Vcpu;
use crate::virtualization::vm::error::VmError;

verus! {

/// A virtual machine of a hypervisor back end, which makes its vcpus.
pub trait Vm {
    type Vcpu;

    /// `r` is an answer that the machine may give when asked for vcpu `vcpu_id`.
    spec fn made(&self, vcpu_id: usize, r: Result<Self::Vcpu, VmError>) -> bool;

    /// Makes vcpu `vcpu_id`.
    fn create_vcpu(&self, vcpu_id: usize) -> (r: Result<Self::Vcpu, VmError>)
        ensures
            self.made(vcpu_id, r),
    ;
}

/// The vcpus of a virtual machine, in the order they were created.
pub struct VcpuManager<M: Vm, H, P> {
    vm_instance: M,
    vcpus: Vec<Vcpu<M::Vcpu, H, P>>,
}

impl<M: Vm, H, P> VcpuManager<M, H, P> {
    /// The vcpus created so far, in order.
    pub closed spec fn vcpus(&self) -> Seq<Vcpu<M::Vcpu, H, P>> {
        self.vcpus@
    }

    /// The machine whose vcpus these are.
    pub closed spec fn vm(&self) -> M {
        self.vm_instance
    }

    /// No vcpu yet.
    pub fn new(vm_instance: M) -> (r: Self)
        ensures
            r.vcpus().len() == 0,
            r.vm() == vm_instance,
    {
        VcpuManager { vm_instance, vcpus: Vec::new() }
    }

    /// Asks the machine once for vcpu `vcpu_id` and keeps what it makes, with its device exit
    /// handler and PSCI handler, after the vcpus already kept; hands back the machine's error
    /// where it makes none.
    pub fn create_vcpu(&mut self, vcpu_id: usize, device_vm_exit_handler: H, psci: P) -> (r:
        Result<(), VmError>)
        ensures
            final(self).vm() == old(self).vm(),
            exists|answer: Result<M::Vcpu, VmError>|
                {
                    &&& old(self).vm().made(vcpu_id, answer)
                    &&& answer matches Ok(v) ==> r is Ok && final(self).vcpus()
                        == old(self).vcpus().push(
                        Vcpu { vcpu_instance: v, device_vm_exit_handler, psci },
                    )
                    &&& answer matches Err(e) ==> r == Err::<(), VmError>(e)
                        && final(self).vcpus() == old(self).vcpus()
                },
    {
        let created = self.vm_instance.create_vcpu(vcpu_id);
        self.keep_created_vcpu(created, device_vm_exit_handler, psci)
    }

    /// Keeps the vcpu that the machine made, with its device exit handler and PSCI handler,
    /// after the vcpus already kept; hands back the machine's error where it made none.
    pub fn keep_created_vcpu(
        &mut self,
        created: Result<M::Vcpu, VmError>,
        device_vm_exit_handler: H,
        psci: P,
    ) -> (r: Result<(), VmError>)
        ensures
            final(self).vm() == old(self).vm(),
            created matches Ok(v) ==> r is Ok && final(self).vcpus() == old(self).vcpus().push(
                Vcpu { vcpu_instance: v, device_vm_exit_handler, psci },
            ),
            created matches Err(e) ==> r == Err::<(), VmError>(e) && final(self).vcpus()
                == old(self).vcpus(),
    {
        match created {
            Ok(vcpu_instance) => {
                self.vcpus.push(Vcpu { vcpu_instance, device_vm_exit_handler, psci });
                Ok(())
            },
            Err(e) => Err(e),
        }
    }

    /// The vcpu with index `vcpu_id`, to be started; an error where there is none.
    pub fn vcpu_to_start(&self, vcpu_id: usize) -> (r: Result<&Vcpu<M::Vcpu, H, P>, VcpuError>)
        ensures
            vcpu_id < self.vcpus().len() ==> (r matches Ok(v) && *v == self.vcpus()[vcpu_id as int]),
            vcpu_id >= self.vcpus().len() ==> r == Err::<&Vcpu<M::Vcpu, H, P>, VcpuError>(
                VcpuError::VcpuNotCreated(vcpu_id),
            ),
    {
        if vcpu_id < self.vcpus.len() {
            Ok(&self.vcpus[vcpu_id])
        } else {
            Err(VcpuError::VcpuNotCreated(vcpu_id))
        }
    }
}

} // verus!
