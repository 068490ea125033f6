use kvm_bindings::kvm_cpuid_entry2;
use kvm_bindings::CpuId;
use vm_core::virtualization::kvm::vcpu::cpu_id::mark_hypervisor_present;
use vm_core::virtualization::kvm::vcpu::cpu_id::update_cpuid;
use vm_core::virtualization::kvm::vcpu::cpu_id::CpuIdTable;

fn leaf(function: u32, index: u32, ebx: u32, ecx: u32) -> kvm_cpuid_entry2 {
    kvm_cpuid_entry2 {
        function,
        index,
        ebx,
        ecx,
        ..Default::default()
    }
}

fn table() -> CpuIdTable {
    CpuIdTable {
        table: CpuId::from_entries(&[leaf(0, 0, 0xaaaa_aaaa, 1), leaf(1, 0, 0x1234_5678, 0x10), leaf(1, 1, 0xffff_ffff, 0)])
            .unwrap(),
    }
}

#[test]
fn apic_id_goes_into_leaf_one() {
    let source = table();
    let updated = update_cpuid(&source, 3);
    let leaves = updated.table.as_slice();
    assert_eq!(leaves.len(), 3);
    assert_eq!(leaves[0].ebx, 0xaaaa_aaaa);
    assert_eq!(leaves[1].ebx, 0x0334_5678);
    assert_eq!(leaves[2].ebx, 0x03ff_ffff);
    assert_eq!(leaves[1].ecx, 0x10);
    // the table handed in is left as it was
    assert_eq!(source.table.as_slice()[1].ebx, 0x1234_5678);
}

#[test]
fn hypervisor_bit_in_leaf_one_index_zero() {
    let mut cpuid = table();
    mark_hypervisor_present(&mut cpuid);
    let leaves = cpuid.table.as_slice();
    assert_eq!(leaves[0].ecx, 1);
    assert_eq!(leaves[1].ecx, 0x8000_0010);
    assert_eq!(leaves[2].ecx, 0);
    assert_eq!(leaves[1].ebx, 0x1234_5678);
}
