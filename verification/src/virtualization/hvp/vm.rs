use vstd::prelude::*;

use crate::virtualization::vm::error::VmError;

verus! {

/// Where the interrupt controller's parts are to be placed in guest physical memory, and where
/// RAM starts above them.
#[derive(Debug, Clone, Copy, PartialEq, Eq)]
pub struct GicPlacement {
    pub distributor_base: u64,
    pub redistributor_base: u64,
    pub msi_base: u64,
    pub ram_base: u64,
}

/// The alignments and sizes that the hypervisor's interrupt controller asks for.
#[derive(Debug, Clone, Copy, PartialEq, Eq)]
pub struct GicRequirements {
    pub distributor_base_alignment: usize,
    pub redistributor_base_alignment: usize,
    pub msi_region_base_alignment: usize,
    pub distributor_size: usize,
    pub redistributor_region_size: usize,
    pub msi_region_size: usize,
}

/// `x` is a multiple of `a` (only 0 is a multiple of 0).
pub open spec fn multiple_of(x: u64, a: u64) -> bool {
    if a == 0 {
        x == 0
    } else {
        x % a == 0
    }
}

/// The first rule of the placement that `p` breaks, as the message that reports it: each base
/// is aligned, the distributor ends by the redistributor, the redistributor region ends by the
/// MSI region, and the MSI region ends by RAM.
pub open spec fn gic_placement_error(p: GicPlacement, q: GicRequirements) -> Option<Seq<char>> {
    if !multiple_of(p.distributor_base, q.distributor_base_alignment as u64) {
        Some("The base address of gic distributor is not aligned"@)
    } else if !multiple_of(p.redistributor_base, q.redistributor_base_alignment as u64) {
        Some("The base address of gic redistributor is not aligned"@)
    } else if p.distributor_base + q.distributor_size > p.redistributor_base {
        Some("distributor too large"@)
    } else if !multiple_of(p.msi_base, q.msi_region_base_alignment as u64) {
        Some("The base address of gic msi is not aligned"@)
    } else if p.redistributor_base + q.redistributor_region_size > p.msi_base {
        Some("redistributor too large"@)
    } else if p.msi_base + q.msi_region_size > p.ram_base {
        Some("msi region too large"@)
    } else {
        None
    }
}

/// A placement is accepted exactly when each base is aligned as the hypervisor asks (an
/// alignment of 0 admits only address 0) and the distributor, the redistributor region and the
/// MSI region lie in this order, each ending by the start of the next, the last by RAM.
pub proof fn lemma_gic_placement_accepted(p: GicPlacement, q: GicRequirements)
    ensures
        gic_placement_error(p, q) is None <==> {
            &&& (q.distributor_base_alignment == 0 ==> p.distributor_base == 0)
            &&& (q.distributor_base_alignment != 0 ==> p.distributor_base
                % q.distributor_base_alignment as u64 == 0)
            &&& (q.redistributor_base_alignment == 0 ==> p.redistributor_base == 0)
            &&& (q.redistributor_base_alignment != 0 ==> p.redistributor_base
                % q.redistributor_base_alignment as u64 == 0)
            &&& (q.msi_region_base_alignment == 0 ==> p.msi_base == 0)
            &&& (q.msi_region_base_alignment != 0 ==> p.msi_base % q.msi_region_base_alignment as u64
                == 0)
            &&& p.distributor_base + q.distributor_size <= p.redistributor_base
            &&& p.redistributor_base + q.redistributor_region_size <= p.msi_base
            &&& p.msi_base + q.msi_region_size <= p.ram_base
        },
{
}

fn is_multiple_of(x: u64, a: u64) -> (r: bool)
    ensures
        r == multiple_of(x, a),
{
    if a == 0 {
        x == 0
    } else {
        x % a == 0
    }
}

/// `base + size > limit`, without overflow.
fn ends_after(base: u64, size: usize, limit: u64) -> (r: bool)
    ensures
        r == (base + size > limit),
{
    base > limit || size as u64 > limit - base
}

/// The interrupt controller (GICv3) of a machine of the Apple hypervisor: where its
/// distributor, redistributor region and MSI region are placed in guest physical memory.
#[derive(Debug, Clone, Copy, PartialEq, Eq, Structural)]
pub struct HvpGicV3 {
    distributor_base: u64,
    redistributor_base: u64,
    msi_base: u64,
}

impl HvpGicV3 {
    /// The base of the distributor.
    pub closed spec fn distributor(&self) -> u64 {
        self.distributor_base
    }

    /// The base of the redistributor region.
    pub closed spec fn redistributor(&self) -> u64 {
        self.redistributor_base
    }

    /// The base of the MSI region.
    pub closed spec fn msi(&self) -> u64 {
        self.msi_base
    }

    /// The controller placed as `p` asks, once `p` is checked against what the hypervisor
    /// asks (`q`); the error that reports the first rule `p` breaks.
    pub fn place(p: &GicPlacement, q: &GicRequirements) -> (r: Result<Self, VmError>)
        ensures
            r is Ok <==> {
                &&& (q.distributor_base_alignment == 0 ==> p.distributor_base == 0)
                &&& (q.distributor_base_alignment != 0 ==> p.distributor_base
                    % q.distributor_base_alignment as u64 == 0)
                &&& (q.redistributor_base_alignment == 0 ==> p.redistributor_base == 0)
                &&& (q.redistributor_base_alignment != 0 ==> p.redistributor_base
                    % q.redistributor_base_alignment as u64 == 0)
                &&& (q.msi_region_base_alignment == 0 ==> p.msi_base == 0)
                &&& (q.msi_region_base_alignment != 0 ==> p.msi_base % q.msi_region_base_alignment as u64
                    == 0)
                &&& p.distributor_base + q.distributor_size <= p.redistributor_base
                &&& p.redistributor_base + q.redistributor_region_size <= p.msi_base
                &&& p.msi_base + q.msi_region_size <= p.ram_base
        },
            match gic_placement_error(*p, *q) {
                None => r matches Ok(gic) && gic.distributor() == p.distributor_base
                    && gic.redistributor() == p.redistributor_base && gic.msi() == p.msi_base,
                Some(msg) => r matches Err(VmError::CreateIrqChipError(m)) && m@ == msg,
            },
    {
        proof {
            lemma_gic_placement_accepted(*p, *q);
        }
        AppleHypervisorVm::check_gic_placement(p, q)?;
        Ok(
            HvpGicV3 {
                distributor_base: p.distributor_base,
                redistributor_base: p.redistributor_base,
                msi_base: p.msi_base,
            },
        )
    }

    pub fn get_distributor_base(&self) -> (r: u64)
        ensures
            r == self.distributor(),
    {
        self.distributor_base
    }

    pub fn get_redistributor_base(&self) -> (r: u64)
        ensures
            r == self.redistributor(),
    {
        self.redistributor_base
    }

    pub fn get_msi_region_base(&self) -> (r: u64)
        ensures
            r == self.msi(),
    {
        self.msi_base
    }
}

/// A virtual machine of the Apple hypervisor.
#[derive(Default)]
pub struct AppleHypervisorVm {}

impl AppleHypervisorVm {
    /// Checks the placement of the interrupt controller before it is configured and created.
    pub fn check_gic_placement(p: &GicPlacement, q: &GicRequirements) -> (r: Result<(), VmError>)
        ensures
            match gic_placement_error(*p, *q) {
                None => r is Ok,
                Some(msg) => r matches Err(VmError::CreateIrqChipError(m)) && m@ == msg,
            },
    {
        if !is_multiple_of(p.distributor_base, q.distributor_base_alignment as u64) {
            return Err(
                VmError::CreateIrqChipError(
                    "The base address of gic distributor is not aligned".to_string(),
                ),
            );
        }
        if !is_multiple_of(p.redistributor_base, q.redistributor_base_alignment as u64) {
            return Err(
                VmError::CreateIrqChipError(
                    "The base address of gic redistributor is not aligned".to_string(),
                ),
            );
        }
        if ends_after(p.distributor_base, q.distributor_size, p.redistributor_base) {
            return Err(VmError::CreateIrqChipError("distributor too large".to_string()));
        }
        if !is_multiple_of(p.msi_base, q.msi_region_base_alignment as u64) {
            return Err(
                VmError::CreateIrqChipError("The base address of gic msi is not aligned".to_string()),
            );
        }
        if ends_after(p.redistributor_base, q.redistributor_region_size, p.msi_base) {
            return Err(VmError::CreateIrqChipError("redistributor too large".to_string()));
        }
        if ends_after(p.msi_base, q.msi_region_size, p.ram_base) {
            return Err(VmError::CreateIrqChipError("msi region too large".to_string()));
        }
        Ok(())
    }
}

} // verus!
