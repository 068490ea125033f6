use vstd::prelude::*;

use crate::vcpu::arch::aarch64::reg::esr_el2::EsrEl2;
use crate::vcpu::arch::aarch64::reg::esr_el2::UnknownEc;
use crate::vcpu::arch::aarch64::reg::srt_register;
use crate::vcpu::arch::aarch64::reg::srt_supported;
use crate::vcpu::arch::aarch64::reg::sys_encoding_supported;
use crate::vcpu::arch::aarch64::reg::CoreRegister;
use crate::vcpu::arch::aarch64::reg::SysRegister;
use crate::virt::vm_exit::data_abort_of;
use crate::virt::vm_exit::decode_data_abort;
use crate::virt::vm_exit::ec_of;
use crate::virt::vm_exit::le_bytes;
use crate::virt::vm_exit::mmio_exit;
use crate::virt::vm_exit::syndrome_valid;
use crate::virt::vm_exit::VmExitReason;

verus! {

/// Why a vcpu of the Apple hypervisor stopped with an exception.
#[derive(Debug)]
pub enum HvpVmExitReason {
    /// An exception of unknown reason.
    Unknown,
    /// A WFI or WFE instruction.
    Wf,
    /// An SMC instruction.
    Smc,
    /// A trapped write of `data` to system register `reg`.
    TrappedWrite { reg: SysRegister, data: u64 },
    /// The guest reads `len` bytes of device memory at `gpa` into register `srt`.
    MMRead { gpa: u64, srt: CoreRegister, len: usize },
    /// The guest writes the `len` bytes of `buf` to device memory at `gpa`.
    MMWrite { gpa: u64, buf: Vec<u8>, len: usize },
}

/// The exception class of a WFI or WFE instruction.
pub const EC_WF: u64 = 0x01;

/// The exception class of an HVC instruction (AArch64).
pub const EC_HVC: u64 = 0x16;

/// The exception class of an SMC instruction (AArch64).
pub const EC_SMC: u64 = 0x17;

/// The exception class of a trapped MSR, MRS or system instruction.
pub const EC_TRAPPED: u64 = 0x18;

/// The exception class of a data abort from a lower exception level.
pub const EC_DA: u64 = 0x24;

/// What the syndrome `esr` of a trapped system register access tells:
/// `(read, op0, op1, crn, crm, op2, rt)`.
pub open spec fn trapped_access_of(esr: u64) -> (bool, u8, u8, u8, u8, u8, u64) {
    let iss = esr & 0x1ffffff;
    (
        iss & 0x1 != 0,
        ((iss >> 20u64) & 0x3) as u8,
        ((iss >> 14u64) & 0x7) as u8,
        ((iss >> 10u64) & 0xf) as u8,
        ((iss >> 1u64) & 0xf) as u8,
        ((iss >> 17u64) & 0x7) as u8,
        (iss >> 5u64) & 0x1f,
    )
}

/// The fields of a trapped access, read off the syndrome `esr`: the direction is bit 0 (set for
/// a read), CRm bits 1..5, the register Rt bits 5..10.
pub proof fn lemma_trapped_access_fields(esr: u64)
    ensures
        trapped_access_of(esr).0 == (esr & 0x1 == 1),
        trapped_access_of(esr).4 as u64 == (esr >> 1u64) & 0xf,
        trapped_access_of(esr).6 == (esr >> 5u64) & 0x1f,
{
    assert(((esr & 0x1ffffff) & 0x1 != 0) == (esr & 0x1 == 1)) by (bit_vector);
    assert(((esr & 0x1ffffff) >> 1u64) & 0xf == (esr >> 1u64) & 0xf) by (bit_vector);
    assert((esr >> 1u64) & 0xf < 256) by (bit_vector);
    assert(((esr & 0x1ffffff) >> 5u64) & 0x1f == (esr >> 5u64) & 0x1f) by (bit_vector);
}

/// The syndrome `esr` of a trapped access names a write to a system register that is decoded.
pub open spec fn trapped_write_supported(esr: u64) -> bool {
    let (read, op0, op1, crn, crm, op2, rt) = trapped_access_of(esr);
    !read && sys_encoding_supported(op0, op1, crn, crm, op2)
}

/// The exception classes that the vcpu's exits handle.
pub open spec fn ec_handled(ec: u64) -> bool {
    ec == 0x00 || ec == EC_WF || ec == EC_SMC || ec == EC_TRAPPED || ec == EC_DA
}

/// Why a vcpu stopped, from the syndrome `esr` and fault address `far` of the exception it took;
/// `data` is what the register that the syndrome names holds (for a trapped write, register
/// `rt`, where register 31 reads as zero; for a data abort, register `srt`).
pub fn to_hvp_vm_exit(esr: &EsrEl2, far: u64, data: u64) -> (r: Result<HvpVmExitReason, UnknownEc>)
    requires
        ec_of(esr.value()) != EC_HVC,
        ec_of(esr.value()) == EC_TRAPPED ==> trapped_write_supported(esr.value()),
        ec_of(esr.value()) == EC_DA ==> syndrome_valid(esr.value()) && (!data_abort_of(
            esr.value(),
        ).is_write ==> srt_supported(data_abort_of(esr.value()).srt)),
    ensures
        !ec_handled(ec_of(esr.value())) ==> r == Err::<HvpVmExitReason, UnknownEc>(
            UnknownEc(ec_of(esr.value()) as u8),
        ),
        ec_of(esr.value()) == 0x00 ==> r matches Ok(HvpVmExitReason::Unknown),
        ec_of(esr.value()) == EC_WF ==> r matches Ok(HvpVmExitReason::Wf),
        ec_of(esr.value()) == EC_SMC ==> r matches Ok(HvpVmExitReason::Smc),
        ec_of(esr.value()) == EC_TRAPPED ==> ({
            let (read, op0, op1, crn, crm, op2, rt) = trapped_access_of(esr.value());
            r matches Ok(HvpVmExitReason::TrappedWrite { reg, data: d }) && d == (if rt == 31 {
                0
            } else {
                data
            }) && (crm == 0 ==> reg == SysRegister::OslarEl1) && (crm == 1 ==> reg
                == SysRegister::OslsrEl1) && (crm == 3 ==> reg == SysRegister::OsdlrEl1)
        }),
        ec_of(esr.value()) == EC_TRAPPED ==> (r matches Ok(
            HvpVmExitReason::TrappedWrite { reg, data: d },
        ) && d == (if (esr.value() >> 5u64) & 0x1f == 31 {
            0
        } else {
            data
        }) && ((esr.value() >> 1u64) & 0xf == 0 ==> reg == SysRegister::OslarEl1) && ((esr.value()
            >> 1u64) & 0xf == 1 ==> reg == SysRegister::OslsrEl1) && ((esr.value() >> 1u64) & 0xf
            == 3 ==> reg == SysRegister::OsdlrEl1)),
        ec_of(esr.value()) == EC_DA && data_abort_of(esr.value()).is_write ==> (r matches Ok(
            HvpVmExitReason::MMWrite { gpa, buf, len },
        ) && gpa == far && len == data_abort_of(esr.value()).len && buf@ == le_bytes(
            data,
            data_abort_of(esr.value()).len as nat,
        )),
        ec_of(esr.value()) == EC_DA && !data_abort_of(esr.value()).is_write ==> (r matches Ok(
            HvpVmExitReason::MMRead { gpa, srt, len },
        ) && gpa == far && len == data_abort_of(esr.value()).len && srt == srt_register(
            data_abort_of(esr.value()).srt,
        )),
{
    proof {
        lemma_trapped_access_fields(esr.value());
    }
    let ec = esr.ec_raw() as u64;
    assert(ec == ec_of(esr.value())) by {
        let v = esr.value();
        assert(((v >> 26u64) & 0x3f) as u8 as u64 == (v >> 26u64) & 0x3f) by (bit_vector);
    }
    if ec == 0x00 {
        Ok(HvpVmExitReason::Unknown)
    } else if ec == EC_WF {
        Ok(HvpVmExitReason::Wf)
    } else if ec == EC_SMC {
        Ok(HvpVmExitReason::Smc)
    } else if ec == EC_TRAPPED {
        let iss = esr.iss();
        let crm = ((iss >> 1) & 0xf) as u8;
        let rt = (iss >> 5) & 0x1f;
        let crn = ((iss >> 10) & 0xf) as u8;
        let op1 = ((iss >> 14) & 0x7) as u8;
        let op2 = ((iss >> 17) & 0x7) as u8;
        let op0 = ((iss >> 20) & 0x3) as u8;
        let reg = SysRegister::decode(op0, op1, crn, crm, op2);
        let d = if rt == 0b11111 {
            0
        } else {
            data
        };
        Ok(HvpVmExitReason::TrappedWrite { reg, data: d })
    } else if ec == EC_DA {
        let abort = decode_data_abort(esr);
        match mmio_exit(far, &abort, data) {
            VmExitReason::MMIORead { gpa, srt, len } => Ok(HvpVmExitReason::MMRead { gpa, srt, len }),
            VmExitReason::MMIOWrite { gpa, buf, len } => Ok(
                HvpVmExitReason::MMWrite { gpa, buf, len },
            ),
            VmExitReason::Unknown => Ok(HvpVmExitReason::Unknown),
        }
    } else {
        Err(UnknownEc(esr.ec_raw()))
    }
}

} // verus!
