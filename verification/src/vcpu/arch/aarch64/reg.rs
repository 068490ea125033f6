pub mod esr_el2;

use vstd::prelude::*;

verus! {

/// The general purpose and special registers of an aarch64 vcpu.
#[derive(Debug, Clone, Copy, PartialEq, Eq, Structural)]
pub enum CoreRegister {
    X0,
    X1,
    X2,
    X3,
    X4,
    X5,
    X6,
    X7,
    X8,
    X9,
    X10,
    X11,
    X12,
    X13,
    X14,
    X15,
    X16,
    X17,
    X18,
    X19,
    X20,
    X21,
    X22,
    X23,
    X24,
    X25,
    X26,
    X27,
    X28,
    X29,
    X30,
    SP,
    PC,
    PState,
}

/// The register numbers that an exception syndrome may name and that are handled.
pub open spec fn srt_supported(srt: u64) -> bool {
    srt <= 5 || srt == 19
}

/// The register that a supported transfer register number names.
pub open spec fn srt_register(srt: u64) -> CoreRegister {
    match srt {
        0 => CoreRegister::X0,
        1 => CoreRegister::X1,
        2 => CoreRegister::X2,
        3 => CoreRegister::X3,
        4 => CoreRegister::X4,
        5 => CoreRegister::X5,
        _ => CoreRegister::X19,
    }
}

impl CoreRegister {
    /// The register that a syndrome's transfer register number names.
    pub fn from_srt(srt: u64) -> (r: Self)
        requires
            srt_supported(srt),
        ensures
            r == srt_register(srt),
    {
        match srt {
            0 => CoreRegister::X0,
            1 => CoreRegister::X1,
            2 => CoreRegister::X2,
            3 => CoreRegister::X3,
            4 => CoreRegister::X4,
            5 => CoreRegister::X5,
            _ => CoreRegister::X19,
        }
    }
}

/// The system registers that a trapped access may name.
#[derive(Debug, Clone, Copy, PartialEq, Eq, Structural)]
pub enum SysRegister {
    SctlrEl1,
    CnthctlEl2,
    OslarEl1,
    OslsrEl1,
    OsdlrEl1,
}

/// The encodings `(op0, op1, crn, crm, op2)` that are decoded: the OS lock and double lock
/// registers of the debug space (`op0 == 0b10`).
pub open spec fn sys_encoding_supported(op0: u8, op1: u8, crn: u8, crm: u8, op2: u8) -> bool {
    &&& op0 == 0b10
    &&& op1 == 0b000
    &&& crn == 0b0001
    &&& op2 == 0b100
    &&& (crm == 0b0000 || crm == 0b0001 || crm == 0b0011)
}

impl SysRegister {
    /// The system register of an encoding.
    pub fn decode(op0: u8, op1: u8, crn: u8, crm: u8, op2: u8) -> (r: Self)
        requires
            sys_encoding_supported(op0, op1, crn, crm, op2),
        ensures
            crm == 0b0000 ==> r == SysRegister::OslarEl1,
            crm == 0b0001 ==> r == SysRegister::OslsrEl1,
            crm == 0b0011 ==> r == SysRegister::OsdlrEl1,
    {
        if crm == 0b0000 {
            SysRegister::OslarEl1
        } else if crm == 0b0001 {
            SysRegister::OslsrEl1
        } else {
            SysRegister::OsdlrEl1
        }
    }
}

/// The general purpose registers as KVM numbers them.
#[derive(Debug, Clone, Copy, PartialEq, Eq, Structural)]
pub enum Reg {
    X0,
    X1,
    X2,
    X3,
    X4,
    X5,
    X6,
    X7,
    X8,
    X9,
    X10,
    X11,
    X12,
    X13,
    X14,
    X15,
    X16,
    X17,
    X18,
    X19,
    X20,
    X21,
    X22,
    X23,
    X24,
    X25,
    X26,
    X27,
    X28,
    X29,
    X30,
}

/// KVM's register id space of arm64 (`KVM_REG_ARM64`).
pub const KVM_REG_ARM64: u64 = 0x6000_0000_0000_0000;

/// KVM's size field for 64-bit registers (`KVM_REG_SIZE_U64`).
pub const KVM_REG_SIZE_U64: u64 = 0x0030_0000_0000_0000;

/// KVM's group of core registers of arm64 (`KVM_REG_ARM_CORE`).
pub const KVM_REG_ARM_CORE: u32 = 0x0010_0000;

/// The id by which KVM knows core register `id` of an arm64 vcpu.
pub open spec fn core_register_id(id: u16) -> u64 {
    KVM_REG_ARM64 | KVM_REG_SIZE_U64 | (KVM_REG_ARM_CORE as u64) | (id as u64)
}

pub struct RegisterEncoder;

impl RegisterEncoder {
    pub fn encode_core_register(id: u16) -> (r: u64)
        ensures
            r == core_register_id(id),
            r == 0x6030_0000_0010_0000u64 + id,
    {
        let r = KVM_REG_ARM64 | KVM_REG_SIZE_U64 | (KVM_REG_ARM_CORE as u64) | (id as u64);
        assert(0x6000_0000_0000_0000u64 | 0x0030_0000_0000_0000u64 | 0x0010_0000u64 | (id as u64)
            == 0x6030_0000_0010_0000u64 + id) by (bit_vector);
        r
    }
}

impl Reg {
    /// The register's number among the general purpose registers.
    pub open spec fn number(&self) -> u16 {
        match self {
            Reg::X0 => 0,
            Reg::X1 => 1,
            Reg::X2 => 2,
            Reg::X3 => 3,
            Reg::X4 => 4,
            Reg::X5 => 5,
            Reg::X6 => 6,
            Reg::X7 => 7,
            Reg::X8 => 8,
            Reg::X9 => 9,
            Reg::X10 => 10,
            Reg::X11 => 11,
            Reg::X12 => 12,
            Reg::X13 => 13,
            Reg::X14 => 14,
            Reg::X15 => 15,
            Reg::X16 => 16,
            Reg::X17 => 17,
            Reg::X18 => 18,
            Reg::X19 => 19,
            Reg::X20 => 20,
            Reg::X21 => 21,
            Reg::X22 => 22,
            Reg::X23 => 23,
            Reg::X24 => 24,
            Reg::X25 => 25,
            Reg::X26 => 26,
            Reg::X27 => 27,
            Reg::X28 => 28,
            Reg::X29 => 29,
            Reg::X30 => 30,
        }
    }

    /// The id by which KVM knows the register.
    pub fn to_kvm_reg(&self) -> (r: u64)
        ensures
            r == core_register_id(self.number()),
    {
        match self {
            Reg::X0 => RegisterEncoder::encode_core_register(0),
            Reg::X1 => RegisterEncoder::encode_core_register(1),
            Reg::X2 => RegisterEncoder::encode_core_register(2),
            Reg::X3 => RegisterEncoder::encode_core_register(3),
            Reg::X4 => RegisterEncoder::encode_core_register(4),
            Reg::X5 => RegisterEncoder::encode_core_register(5),
            Reg::X6 => RegisterEncoder::encode_core_register(6),
            Reg::X7 => RegisterEncoder::encode_core_register(7),
            Reg::X8 => RegisterEncoder::encode_core_register(8),
            Reg::X9 => RegisterEncoder::encode_core_register(9),
            Reg::X10 => RegisterEncoder::encode_core_register(10),
            Reg::X11 => RegisterEncoder::encode_core_register(11),
            Reg::X12 => RegisterEncoder::encode_core_register(12),
            Reg::X13 => RegisterEncoder::encode_core_register(13),
            Reg::X14 => RegisterEncoder::encode_core_register(14),
            Reg::X15 => RegisterEncoder::encode_core_register(15),
            Reg::X16 => RegisterEncoder::encode_core_register(16),
            Reg::X17 => RegisterEncoder::encode_core_register(17),
            Reg::X18 => RegisterEncoder::encode_core_register(18),
            Reg::X19 => RegisterEncoder::encode_core_register(19),
            Reg::X20 => RegisterEncoder::encode_core_register(20),
            Reg::X21 => RegisterEncoder::encode_core_register(21),
            Reg::X22 => RegisterEncoder::encode_core_register(22),
            Reg::X23 => RegisterEncoder::encode_core_register(23),
            Reg::X24 => RegisterEncoder::encode_core_register(24),
            Reg::X25 => RegisterEncoder::encode_core_register(25),
            Reg::X26 => RegisterEncoder::encode_core_register(26),
            Reg::X27 => RegisterEncoder::encode_core_register(27),
            Reg::X28 => RegisterEncoder::encode_core_register(28),
            Reg::X29 => RegisterEncoder::encode_core_register(29),
            Reg::X30 => RegisterEncoder::encode_core_register(30),
        }
    }
}

} // verus!
