use vm_core::vcpu::error::VcpuError;
use vm_core::vcpu::vcpu_manager::VcpuManager;
use vm_core::vcpu::vcpu_manager::Vm;
use vm_core::virtualization::hvp::vm::AppleHypervisorVm;
use vm_core::virtualization::hvp::vm::GicPlacement;
use vm_core::virtualization::hvp::vm::HvpGicV3;
use vm_core::virtualization::hvp::vm::GicRequirements;
use vm_core::virtualization::irq_allocator::IrqAllocator;
use vm_core::virtualization::kvm::gsi_routing::x86_64::new_irq_gsi_routing;
use vm_core::virtualization::kvm::gsi_routing::GsiRoutingError;
use vm_core::virtualization::kvm::gsi_routing::KvmGsiRouting;
use vm_core::virtualization::vm::error::VmError;
use vm_core::virtualization::vm::state::VmState;

#[test]
fn irqs_in_order_until_exhausted() {
    let mut irqs = IrqAllocator::new(5, 7);
    assert_eq!(irqs.alloc_irq(), Ok(5));
    assert_eq!(irqs.alloc_irq(), Ok(6));
    assert_eq!(irqs.alloc_irq(), Ok(7));
    assert_eq!(irqs.alloc_irq(), Err(VmError::AllocIrq));
    assert_eq!(irqs.alloc_irq(), Err(VmError::AllocIrq));
}

#[test]
fn irq_allocator_at_the_top_of_u32() {
    let mut irqs = IrqAllocator::new(u32::MAX - 1, u32::MAX);
    assert_eq!(irqs.alloc_irq(), Ok(u32::MAX - 1));
    assert_eq!(irqs.alloc_irq(), Err(VmError::AllocIrq));
    let mut empty = IrqAllocator::new(3, 2);
    assert_eq!(empty.alloc_irq(), Err(VmError::AllocIrq));
}

#[test]
fn vm_state_checks() {
    assert_eq!(VmState::Created.ensure_is_created(), Ok(()));
    assert_eq!(VmState::Running.ensure_is_created(), Err(VmError::VmState { current: VmState::Running }));
    assert_eq!(VmState::Running.ensure_is_running(), Ok(()));
    assert_eq!(VmState::Paused.ensure_is_running(), Err(VmError::VmState { current: VmState::Paused }));
    assert_eq!(VmState::Paused.ensure_is_paused(), Ok(()));
    assert_eq!(VmState::Created.ensure_is_paused(), Err(VmError::VmState { current: VmState::Created }));
    assert_eq!(VmState::Paused.ensure_is_not_running(), Ok(()));
    assert_eq!(VmState::Created.ensure_is_not_running(), Ok(()));
    assert_eq!(
        VmState::Running.ensure_is_not_running(),
        Err(VmError::VmState { current: VmState::Running })
    );
}

#[test]
fn msi_routes() {
    let mut routing = KvmGsiRouting::default();
    assert!(routing.insert_or_update_msi_gsi_routing(24, 0xfee0_0000, 0, 0x41));
    assert!(!routing.insert_or_update_msi_gsi_routing(24, 0xfee0_0000, 0, 0x41));
    assert!(routing.insert_or_update_msi_gsi_routing(24, 0xfee0_0000, 0, 0x42));
    assert!(routing.remove_msi_gsi_routing(24));
    assert!(!routing.remove_msi_gsi_routing(24));
    assert!(routing.insert_or_update_msi_gsi_routing(24, 0xfee0_0000, 0, 0x42));
}

#[test]
fn x86_legacy_routes() {
    let routing = new_irq_gsi_routing();
    let table = routing.to_kvm_irq_routing().unwrap();
    let entries = table.table.as_slice();
    assert_eq!(entries.len(), 38);
    let gsis: Vec<u32> = entries.iter().map(|e| e.gsi).collect();
    let mut expected: Vec<u32> = vec![0, 1, 3, 4, 5, 6, 7];
    expected.extend(8..16);
    expected.push(0);
    expected.push(1);
    expected.extend(3..24);
    assert_eq!(gsis, expected);
    assert!(entries.iter().all(|e| e.type_ == 1));
}

#[test]
fn kvm_table_with_msi_routes() {
    let mut routing = KvmGsiRouting::default();
    routing.add_intx_gsi_routing(4, 2, 4);
    assert!(routing.insert_or_update_msi_gsi_routing(30, 0xfee0_1000, 1, 7));
    assert!(routing.insert_or_update_msi_gsi_routing(31, 0xfee0_2000, 2, 8));
    let table = routing.to_kvm_irq_routing().unwrap();
    let entries = table.table.as_slice();
    assert_eq!(entries.len(), 3);
    assert_eq!((entries[0].gsi, entries[0].type_), (4, 1));
    let mut msi: Vec<(u32, u32)> = entries[1..].iter().map(|e| (e.gsi, e.type_)).collect();
    msi.sort();
    assert_eq!(msi, vec![(30, 2), (31, 2)]);
}

#[test]
fn kvm_table_too_large() {
    let mut routing = KvmGsiRouting::default();
    for gsi in 0..4096u32 {
        routing.add_intx_gsi_routing(gsi, 0, gsi);
    }
    assert!(routing.to_kvm_irq_routing().is_ok());
    routing.add_intx_gsi_routing(4096, 0, 0);
    assert_eq!(routing.to_kvm_irq_routing().err(), Some(GsiRoutingError::SizeLimitExceeded));
}

fn placement() -> GicPlacement {
    GicPlacement {
        distributor_base: 0x3000_0000,
        redistributor_base: 0x3001_0000,
        msi_base: 0x3800_0000,
        ram_base: 0x4000_0000,
    }
}

fn requirements() -> GicRequirements {
    GicRequirements {
        distributor_base_alignment: 0x1_0000,
        redistributor_base_alignment: 0x1_0000,
        msi_region_base_alignment: 0x1_0000,
        distributor_size: 0x1_0000,
        redistributor_region_size: 0x20_0000,
        msi_region_size: 0x1_0000,
    }
}

fn irq_chip_error(msg: &str) -> Result<(), VmError> {
    Err(VmError::CreateIrqChipError(msg.to_string()))
}

#[test]
fn gic_placement_checks() {
    assert_eq!(AppleHypervisorVm::check_gic_placement(&placement(), &requirements()), Ok(()));

    let p = GicPlacement { distributor_base: 0x3000_0100, ..placement() };
    assert_eq!(
        AppleHypervisorVm::check_gic_placement(&p, &requirements()),
        irq_chip_error("The base address of gic distributor is not aligned")
    );
    let q = GicRequirements { redistributor_base_alignment: 0x2_0000, ..requirements() };
    assert_eq!(
        AppleHypervisorVm::check_gic_placement(&placement(), &q),
        irq_chip_error("The base address of gic redistributor is not aligned")
    );
    let q = GicRequirements { distributor_size: 0x1_0001, ..requirements() };
    assert_eq!(AppleHypervisorVm::check_gic_placement(&placement(), &q), irq_chip_error("distributor too large"));
    let p = GicPlacement { msi_base: 0x3800_0010, ..placement() };
    assert_eq!(
        AppleHypervisorVm::check_gic_placement(&p, &requirements()),
        irq_chip_error("The base address of gic msi is not aligned")
    );
    let q = GicRequirements { redistributor_region_size: 0x8000_0000, ..requirements() };
    assert_eq!(AppleHypervisorVm::check_gic_placement(&placement(), &q), irq_chip_error("redistributor too large"));
    let q = GicRequirements { msi_region_size: 0x800_0001, ..requirements() };
    assert_eq!(AppleHypervisorVm::check_gic_placement(&placement(), &q), irq_chip_error("msi region too large"));
    // an alignment of 0 admits only address 0
    let q = GicRequirements { distributor_base_alignment: 0, ..requirements() };
    assert_eq!(
        AppleHypervisorVm::check_gic_placement(&placement(), &q),
        irq_chip_error("The base address of gic distributor is not aligned")
    );
}

#[test]
fn gic_is_placed_where_asked() {
    let gic = HvpGicV3::place(&placement(), &requirements()).unwrap();
    assert_eq!(gic.get_distributor_base(), 0x3000_0000);
    assert_eq!(gic.get_redistributor_base(), 0x3001_0000);
    assert_eq!(gic.get_msi_region_base(), 0x3800_0000);
    let q = GicRequirements { distributor_size: 0x1_0001, ..requirements() };
    assert_eq!(
        HvpGicV3::place(&placement(), &q).err(),
        Some(VmError::CreateIrqChipError("distributor too large".to_string()))
    );
}

struct FakeVm;

impl Vm for FakeVm {
    type Vcpu = usize;

    fn made(&self, vcpu_id: usize, r: Result<usize, VmError>) -> bool {
        if vcpu_id < 4 {
            r == Ok(vcpu_id * 10)
        } else {
            r.is_err()
        }
    }

    fn create_vcpu(&self, vcpu_id: usize) -> Result<usize, VmError> {
        if vcpu_id < 4 {
            Ok(vcpu_id * 10)
        } else {
            Err(VmError::CreateVcpuError("too many".to_string()))
        }
    }
}

#[test]
fn vcpus_are_kept_in_order() {
    let mut manager = VcpuManager::new(FakeVm);
    assert_eq!(manager.create_vcpu(0, "h0", ()), Ok(()));
    assert_eq!(manager.create_vcpu(1, "h1", ()), Ok(()));
    assert_eq!(manager.create_vcpu(7, "h7", ()), Err(VmError::CreateVcpuError("too many".to_string())));
    let v = manager.vcpu_to_start(1).ok().unwrap();
    assert_eq!((v.vcpu_instance, v.device_vm_exit_handler), (10, "h1"));
    assert_eq!(manager.vcpu_to_start(2).err(), Some(VcpuError::VcpuNotCreated(2)));
}

#[test]
fn created_vcpus_are_kept_and_errors_handed_back() {
    let mut manager = VcpuManager::new(FakeVm);
    assert_eq!(manager.keep_created_vcpu(Ok(42), "a", ()), Ok(()));
    assert_eq!(
        manager.keep_created_vcpu(Err(VmError::CreateVcpuError("no".to_string())), "b", ()),
        Err(VmError::CreateVcpuError("no".to_string()))
    );
    let v = manager.vcpu_to_start(0).ok().unwrap();
    assert_eq!((v.vcpu_instance, v.device_vm_exit_handler), (42, "a"));
    assert_eq!(manager.vcpu_to_start(1).err(), Some(VcpuError::VcpuNotCreated(1)));
}
