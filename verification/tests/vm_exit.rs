use vm_core::vcpu::arch::aarch64::reg::esr_el2::EsrEl2;
use vm_core::vcpu::arch::aarch64::reg::esr_el2::UnknownEc;
use vm_core::vcpu::arch::aarch64::reg::CoreRegister;
use vm_core::virt::vm_exit::decode_data_abort;
use vm_core::virt::vm_exit::mmio_read_value;
use vm_core::virt::vm_exit::to_vm_exit;
use vm_core::virt::vm_exit::VmExitReason;
use vm_core::vcpu::arch::aarch64::reg::SysRegister;
use vm_core::virtualization::hvp::vcpu_exit::to_hvp_vm_exit;
use vm_core::virtualization::hvp::vcpu_exit::HvpVmExitReason;

/// A data abort syndrome: ISV set, the given access size code, register and direction.
fn data_abort(sas: u64, srt: u64, write: bool) -> u64 {
    (0x24u64 << 26) | (1 << 25) | (1 << 24) | (sas << 22) | (srt << 16) | ((write as u64) << 6)
}

#[test]
fn decode_abort_fields() {
    let abort = decode_data_abort(&EsrEl2::from(data_abort(2, 3, true)));
    assert!(abort.is_write);
    assert_eq!(abort.len, 4);
    assert_eq!(abort.srt, 3);
    assert!(abort.is_32bit_inst);
    let abort = decode_data_abort(&EsrEl2::from(data_abort(3, 19, false)));
    assert!(!abort.is_write);
    assert_eq!(abort.len, 8);
    assert_eq!(abort.srt, 19);
}

#[test]
fn mmio_write_exit() {
    let exit = to_vm_exit(&EsrEl2::from(data_abort(1, 2, true)), 0x0900_0000, 0x1122_3344_5566_7788).unwrap();
    match exit {
        VmExitReason::MMIOWrite { gpa, buf, len } => {
            assert_eq!(gpa, 0x0900_0000);
            assert_eq!(len, 2);
            assert_eq!(buf, vec![0x88, 0x77]);
        }
        other => panic!("unexpected exit {:?}", other),
    }
}

#[test]
fn mmio_read_exit() {
    let exit = to_vm_exit(&EsrEl2::from(data_abort(0, 5, false)), 0x0900_0010, 0).unwrap();
    match exit {
        VmExitReason::MMIORead { gpa, srt, len } => {
            assert_eq!(gpa, 0x0900_0010);
            assert_eq!(srt, CoreRegister::X5);
            assert_eq!(len, 1);
        }
        other => panic!("unexpected exit {:?}", other),
    }
}

#[test]
fn other_exception_classes() {
    assert!(matches!(to_vm_exit(&EsrEl2::from(0u64), 0, 0), Ok(VmExitReason::Unknown)));
    assert!(matches!(to_vm_exit(&EsrEl2::from(0x17u64 << 26), 0, 0), Err(UnknownEc(0x17))));
}

#[test]
fn mmio_read_values() {
    assert_eq!(mmio_read_value(&[]), 0);
    assert_eq!(mmio_read_value(&[0xcd]), 0xcd);
    assert_eq!(mmio_read_value(&[0x34, 0x12]), 0x1234);
    assert_eq!(mmio_read_value(&[0x78, 0x56, 0x34, 0x12]), 0x1234_5678);
    assert_eq!(
        mmio_read_value(&[0xef, 0xcd, 0xab, 0x89, 0x67, 0x45, 0x23, 0x01]),
        0x0123_4567_89ab_cdef
    );
    assert_eq!(mmio_read_value(&[0xff; 8]), u64::MAX);
}

#[test]
fn mmio_write_bytes_read_back() {
    // The bytes that a write of the low two bytes of a register sends read back as those bytes.
    let esr = EsrEl2::from(data_abort(1, 3, true));
    let exit = to_vm_exit(&esr, 0x9000_0000, 0xaabb_ccdd).unwrap();
    match exit {
        VmExitReason::MMIOWrite { buf, len, .. } => {
            assert_eq!(len, 2);
            assert_eq!(mmio_read_value(&buf), 0xccdd);
        }
        _ => panic!("expected a device write"),
    }
}

#[test]
fn hvp_exits_of_other_classes() {
    let wf = EsrEl2::from(0x01u64 << 26);
    assert!(matches!(to_hvp_vm_exit(&wf, 0, 0), Ok(HvpVmExitReason::Wf)));
    let smc = EsrEl2::from(0x17u64 << 26);
    assert!(matches!(to_hvp_vm_exit(&smc, 0, 0), Ok(HvpVmExitReason::Smc)));
    let unknown = EsrEl2::from(0);
    assert!(matches!(to_hvp_vm_exit(&unknown, 0, 0), Ok(HvpVmExitReason::Unknown)));
    let brk = EsrEl2::from(0x3cu64 << 26);
    assert_eq!(to_hvp_vm_exit(&brk, 0, 0).err(), Some(UnknownEc(0x3c)));
}

/// A trapped write of register `rt` to the system register with `crm` in the OS lock group.
fn trapped_write(crm: u64, rt: u64) -> u64 {
    (0x18u64 << 26) | (0b10 << 20) | (0b100 << 17) | (0b0001 << 10) | (rt << 5) | (crm << 1)
}

#[test]
fn hvp_trapped_writes() {
    match to_hvp_vm_exit(&EsrEl2::from(trapped_write(0, 3)), 0, 0x55) {
        Ok(HvpVmExitReason::TrappedWrite { reg, data }) => {
            assert_eq!(reg, SysRegister::OslarEl1);
            assert_eq!(data, 0x55);
        }
        _ => panic!("expected a trapped write"),
    }
    match to_hvp_vm_exit(&EsrEl2::from(trapped_write(3, 31)), 0, 0x55) {
        Ok(HvpVmExitReason::TrappedWrite { reg, data }) => {
            assert_eq!(reg, SysRegister::OsdlrEl1);
            assert_eq!(data, 0);
        }
        _ => panic!("expected a trapped write"),
    }
}

#[test]
fn hvp_device_accesses() {
    match to_hvp_vm_exit(&EsrEl2::from(data_abort(2, 4, true)), 0x9000_0000, 0x1122_3344) {
        Ok(HvpVmExitReason::MMWrite { gpa, buf, len }) => {
            assert_eq!((gpa, len), (0x9000_0000, 4));
            assert_eq!(buf, vec![0x44, 0x33, 0x22, 0x11]);
        }
        _ => panic!("expected a device write"),
    }
    match to_hvp_vm_exit(&EsrEl2::from(data_abort(0, 19, false)), 0x9000_0008, 0) {
        Ok(HvpVmExitReason::MMRead { gpa, srt, len }) => {
            assert_eq!((gpa, srt, len), (0x9000_0008, CoreRegister::X19, 1));
        }
        _ => panic!("expected a device read"),
    }
}
