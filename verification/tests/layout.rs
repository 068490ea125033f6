use vm_core::layout::aarch64::AArch64Layout;
use vm_core::layout::aarch64::DTB_START;
use vm_core::layout::aarch64::INITRD_START;
use vm_core::layout::aarch64::KERNEL_MAX;
use vm_core::layout::aarch64::RAM_BASE;
use vm_core::layout::Error;
use vm_core::layout::MemoryLayout;

#[test]
fn fixed_places() {
    let layout = AArch64Layout::default();
    assert_eq!(layout.get_mmio_start(), 0x0900_0000);
    assert_eq!(layout.get_mmio_len(), 0x2000_0000);
    assert_eq!(layout.get_distributor_start(), 0x3000_0000);
    assert_eq!(layout.get_redistributor_start(), 0x3001_0000);
    assert_eq!(layout.get_ram_base(), 0x4000_0000);
    assert_eq!(layout.get_dtb_start(), 0x4400_0000);
    assert_eq!(layout.get_initrd_start(), 0x4420_0000);
    assert_eq!(RAM_BASE + KERNEL_MAX as u64, DTB_START);
    assert_eq!(DTB_START + 0x20_0000, INITRD_START);
    assert!(layout.validate().is_ok());
}

#[test]
fn sizes_are_set_once() {
    let mut layout = AArch64Layout::default();
    assert_eq!(layout.get_ram_size(), Err(Error::RamSizeUnset));
    assert_eq!(layout.set_ram_size(0x1000_0000), Ok(()));
    assert_eq!(layout.set_ram_size(0x2000_0000), Err(Error::RamSizeAlreadySet));
    assert_eq!(layout.get_ram_size(), Ok(0x1000_0000));

    assert_eq!(layout.get_initrd_len(), Err(Error::InitrdUnset));
    assert_eq!(layout.set_initrd_len(100), Ok(()));
    assert_eq!(layout.set_initrd_len(200), Err(Error::InitrdAlreadySet));
    assert_eq!(layout.get_initrd_len(), Ok(100));

    assert_eq!(layout.set_dtb_len(10), Ok(()));
    assert_eq!(layout.set_dtb_len(10), Err(Error::DtbAlreadySet));

    assert_eq!(layout.set_distributor_len(0x1_0000), Ok(()));
    assert_eq!(
        layout.set_distributor_len(0x1_0000),
        Err(Error::ArchAlreadySet("distributor len".to_string()))
    );
    assert_eq!(layout.set_redistributor_region_len(0x2_0000), Ok(()));
    assert_eq!(
        layout.set_redistributor_region_len(0x2_0000),
        Err(Error::ArchAlreadySet("redistributor region len".to_string()))
    );
}

#[test]
fn kernel_placement() {
    let mut layout = AArch64Layout::default();
    assert_eq!(layout.get_kernel_start(), Err(Error::KernelUnset));
    assert_eq!(layout.get_kernel_len(), Err(Error::KernelUnset));
    assert_eq!(layout.get_start_pc(), Err(Error::KernelUnset));
    assert_eq!(layout.set_kernel(RAM_BASE, KERNEL_MAX + 1, RAM_BASE), Err(Error::KernelTooLarge));
    assert_eq!(layout.get_kernel_start(), Err(Error::KernelUnset));
    assert_eq!(layout.set_kernel(RAM_BASE, KERNEL_MAX, RAM_BASE + 0x80), Ok(()));
    assert_eq!(layout.get_kernel_start(), Ok(RAM_BASE));
    assert_eq!(layout.get_kernel_len(), Ok(KERNEL_MAX));
    assert_eq!(layout.get_start_pc(), Ok(RAM_BASE + 0x80));
    assert_eq!(layout.set_kernel(0, 1, 0), Err(Error::KernelAlreadySet));
    assert_eq!(layout.set_kernel(0, KERNEL_MAX + 1, 0), Err(Error::KernelAlreadySet));
    assert_eq!(layout.get_kernel_start(), Ok(RAM_BASE));
}

#[test]
fn error_messages() {
    assert_eq!(Error::ArchAlreadySet("distributor len".to_string()).message(), "arch: distributor len already set");
    assert_eq!(Error::ArchUnset("gic".to_string()).message(), "arch: gic unset");
    assert_eq!(Error::KernelTooLarge.message(), "kernel too large");
    assert_eq!(Error::RamSizeUnset.message(), "ram_size unset");
}
