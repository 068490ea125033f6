use vm_core::vcpu::arch::aarch64::reg::esr_el2::Ec;
use vm_core::vcpu::arch::aarch64::reg::esr_el2::EsrEl2;
use vm_core::vcpu::arch::aarch64::reg::esr_el2::UnknownEc;
use vm_core::vcpu::arch::aarch64::reg::CoreRegister;
use vm_core::vcpu::arch::aarch64::reg::Reg;
use vm_core::vcpu::arch::aarch64::reg::RegisterEncoder;
use vm_core::vcpu::arch::aarch64::reg::SysRegister;

#[test]
fn test_encode_core_register() {
    assert_eq!(Reg::X0.to_kvm_reg(), 0x6030_0000_0010_0000);
}

#[test]
fn encode_other_registers() {
    assert_eq!(Reg::X30.to_kvm_reg(), 0x6030_0000_0010_001e);
    assert_eq!(RegisterEncoder::encode_core_register(0x1234), 0x6030_0000_0010_1234);
}

#[test]
fn esr_fields() {
    let esr = EsrEl2::from(0x0000_00ab_93c0_0046u64);
    assert_eq!(esr.iss(), 0x1c0_0046);
    assert!(esr.il());
    assert_eq!(esr.ec_raw(), 0x24);
    assert!(matches!(esr.ec(), Ok(Ec::DA)));
    assert_eq!(esr.iss2(), 0xab);

    let unknown = EsrEl2::from(0u64);
    assert!(matches!(unknown.ec(), Ok(Ec::Unknown)));
    assert!(!unknown.il());

    let other = EsrEl2::from(0x16u64 << 26);
    assert_eq!(other.ec(), Err(UnknownEc(0x16)));
}

#[test]
fn registers_from_encodings() {
    assert_eq!(CoreRegister::from_srt(0), CoreRegister::X0);
    assert_eq!(CoreRegister::from_srt(5), CoreRegister::X5);
    assert_eq!(CoreRegister::from_srt(19), CoreRegister::X19);
    assert_eq!(SysRegister::decode(0b10, 0, 0b0001, 0b0000, 0b100), SysRegister::OslarEl1);
    assert_eq!(SysRegister::decode(0b10, 0, 0b0001, 0b0001, 0b100), SysRegister::OslsrEl1);
    assert_eq!(SysRegister::decode(0b10, 0, 0b0001, 0b0011, 0b100), SysRegister::OsdlrEl1);
}

#[test]
fn esr_fields_compose() {
    let v: u64 = 0xfedc_ba98_7654_3210;
    let esr = EsrEl2::from(v);
    let composed = esr.iss() | ((esr.il() as u64) << 25) | ((esr.ec_raw() as u64) << 26) | (esr.iss2() << 32);
    assert_eq!(composed, v & 0x00ff_ffff_ffff_ffff);
}
