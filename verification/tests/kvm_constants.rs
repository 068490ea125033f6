use vm_core::vcpu::arch::aarch64::reg::KVM_REG_ARM64;
use vm_core::vcpu::arch::aarch64::reg::KVM_REG_SIZE_U64;
use vm_core::virtualization::kvm::gsi_routing::KVM_MAX_IRQ_ROUTES;
use vm_core::virtualization::kvm::vcpu::cpu_id::KVM_MAX_CPUID_ENTRIES;

#[test]
fn constants_agree_with_kvm_bindings() {
    assert_eq!(KVM_REG_ARM64, kvm_bindings::KVM_REG_ARM64);
    assert_eq!(KVM_REG_SIZE_U64, kvm_bindings::KVM_REG_SIZE_U64);
    assert_eq!(KVM_MAX_IRQ_ROUTES, kvm_bindings::KVM_MAX_IRQ_ROUTES);
    assert_eq!(KVM_MAX_CPUID_ENTRIES, kvm_bindings::KVM_MAX_CPUID_ENTRIES);
}
