use vstd::prelude::*;

use crate::layout::set_once;
use crate::layout::Error;
use crate::layout::MemoryLayout;

verus! {

pub const MMIO_START: u64 = 0x0900_0000;

pub const MMIO_LEN: usize = 0x2000_0000;

pub const GIC_DISTRIBUTOR: u64 = 0x3000_0000;

pub const GIC_REDISTRIBUTOR: u64 = 0x3001_0000;

pub const RAM_BASE: u64 = 0x4000_0000;

/// 64 MiB above the start of RAM are kept for the kernel.
pub const DTB_START: u64 = 0x4400_0000;

/// 2 MiB above the device tree.
pub const INITRD_START: u64 = 0x44200000;

pub const KERNEL_MAX: usize = 0x0400_0000;

/// The kernel area ends where the device tree starts; the device tree has 2 MiB before the
/// initrd.
pub proof fn lemma_layout_constants()
    ensures
        RAM_BASE + KERNEL_MAX == DTB_START,
        KERNEL_MAX == 64 * 1024 * 1024,
        DTB_START + 2 * 1024 * 1024 == INITRD_START,
{
}

/// What an [`AArch64Layout`] holds: fixed places, and sizes that are set once.
pub struct AArch64LayoutView {
    pub mmio_start: u64,
    pub mmio_len: usize,
    pub distributor_start: u64,
    pub distributor_len: Option<usize>,
    pub redistributor_start: u64,
    pub redistributor_region_len: Option<usize>,
    pub ram_base: u64,
    pub ram_size: Option<u64>,
    pub kernel_start: Option<u64>,
    pub kernel_len: Option<usize>,
    pub dtb_start: u64,
    pub dtb_len: Option<usize>,
    pub initrd_start: u64,
    pub initrd_len: Option<usize>,
    pub start_pc: Option<u64>,
}

/// The guest memory layout of aarch64 machines.
pub struct AArch64Layout {
    mmio_start: u64,
    mmio_len: usize,
    distributor_start: u64,
    distributor_len: Option<usize>,
    redistributor_start: u64,
    redistributor_region_len: Option<usize>,
    ram_base: u64,
    ram_size: Option<u64>,
    kernel_start: Option<u64>,
    kernel_len: Option<usize>,
    dtb_start: u64,
    dtb_len: Option<usize>,
    initrd_start: u64,
    initrd_len: Option<usize>,
    start_pc: Option<u64>,
}

impl View for AArch64Layout {
    type V = AArch64LayoutView;

    closed spec fn view(&self) -> AArch64LayoutView {
        AArch64LayoutView {
            mmio_start: self.mmio_start,
            mmio_len: self.mmio_len,
            distributor_start: self.distributor_start,
            distributor_len: self.distributor_len,
            redistributor_start: self.redistributor_start,
            redistributor_region_len: self.redistributor_region_len,
            ram_base: self.ram_base,
            ram_size: self.ram_size,
            kernel_start: self.kernel_start,
            kernel_len: self.kernel_len,
            dtb_start: self.dtb_start,
            dtb_len: self.dtb_len,
            initrd_start: self.initrd_start,
            initrd_len: self.initrd_len,
            start_pc: self.start_pc,
        }
    }
}

impl Default for AArch64Layout {
    /// The fixed places, with no size set yet.
    fn default() -> (r: AArch64Layout)
        ensures
            r@ == (AArch64LayoutView {
                mmio_start: MMIO_START,
                mmio_len: MMIO_LEN,
                distributor_start: GIC_DISTRIBUTOR,
                distributor_len: None,
                redistributor_start: GIC_REDISTRIBUTOR,
                redistributor_region_len: None,
                ram_base: RAM_BASE,
                ram_size: None,
                kernel_start: None,
                kernel_len: None,
                dtb_start: DTB_START,
                dtb_len: None,
                initrd_start: INITRD_START,
                initrd_len: None,
                start_pc: None,
            }),
    {
        AArch64Layout {
            mmio_start: MMIO_START,
            mmio_len: MMIO_LEN,
            distributor_start: GIC_DISTRIBUTOR,
            distributor_len: None,
            redistributor_start: GIC_REDISTRIBUTOR,
            redistributor_region_len: None,
            ram_base: RAM_BASE,
            ram_size: None,
            kernel_start: None,
            kernel_len: None,
            dtb_start: DTB_START,
            dtb_len: None,
            initrd_start: INITRD_START,
            initrd_len: None,
            start_pc: None,
        }
    }
}

impl AArch64Layout {
    pub fn get_distributor_start(&self) -> (r: u64)
        ensures
            r == self@.distributor_start,
    {
        self.distributor_start
    }

    /// Sets the length of the interrupt distributor, once.
    pub fn set_distributor_len(&mut self, len: usize) -> (r: Result<(), Error>)
        ensures
            r is Ok <==> old(self)@.distributor_len is None,
            r matches Err(Error::ArchAlreadySet(what)) ==> what@ == "distributor len"@,
            r is Err ==> r matches Err(Error::ArchAlreadySet(_)),
            final(self)@ == (AArch64LayoutView {
                distributor_len: set_once(old(self)@.distributor_len, len),
                ..old(self)@
            }),
    {
        if self.distributor_len.is_some() {
            return Err(Error::ArchAlreadySet("distributor len".to_string()));
        }
        self.distributor_len = Some(len);
        Ok(())
    }

    pub fn get_redistributor_start(&self) -> (r: u64)
        ensures
            r == self@.redistributor_start,
    {
        self.redistributor_start
    }

    /// Sets the length of the interrupt redistributor region, once.
    pub fn set_redistributor_region_len(&mut self, len: usize) -> (r: Result<(), Error>)
        ensures
            r is Ok <==> old(self)@.redistributor_region_len is None,
            r matches Err(Error::ArchAlreadySet(what)) ==> what@ == "redistributor region len"@,
            r is Err ==> r matches Err(Error::ArchAlreadySet(_)),
            final(self)@ == (AArch64LayoutView {
                redistributor_region_len: set_once(old(self)@.redistributor_region_len, len),
                ..old(self)@
            }),
    {
        if self.redistributor_region_len.is_some() {
            return Err(Error::ArchAlreadySet("redistributor region len".to_string()));
        }
        self.redistributor_region_len = Some(len);
        Ok(())
    }
}

impl MemoryLayout for AArch64Layout {
    fn get_mmio_start(&self) -> (r: u64)
        ensures
            r == self@.mmio_start,
    {
        self.mmio_start
    }

    fn get_mmio_len(&self) -> (r: usize)
        ensures
            r == self@.mmio_len,
    {
        self.mmio_len
    }

    fn get_ram_base(&self) -> (r: u64)
        ensures
            r == self@.ram_base,
    {
        self.ram_base
    }

    /// Sets the size of RAM, once.
    fn set_ram_size(&mut self, len: u64) -> (r: Result<(), Error>)
        ensures
            r is Ok <==> old(self)@.ram_size is None,
            r is Err ==> r == Err::<(), Error>(Error::RamSizeAlreadySet),
            final(self)@ == (AArch64LayoutView {
                ram_size: set_once(old(self)@.ram_size, len),
                ..old(self)@
            }),
    {
        if self.ram_size.is_some() {
            return Err(Error::RamSizeAlreadySet);
        }
        self.ram_size = Some(len);
        Ok(())
    }

    fn get_ram_size(&self) -> (r: Result<u64, Error>)
        ensures
            match self@.ram_size {
                Some(v) => r == Ok::<u64, Error>(v),
                None => r == Err::<u64, Error>(Error::RamSizeUnset),
            },
    {
        match self.ram_size {
            Some(v) => Ok(v),
            None => Err(Error::RamSizeUnset),
        }
    }

    /// Places the kernel, once, if it fits in the room kept for it.
    fn set_kernel(&mut self, kernel_start: u64, kernel_len: usize, start_pc: u64) -> (r: Result<
        (),
        Error,
    >)
        ensures
            ({
                let already = old(self)@.kernel_start is Some || old(self)@.kernel_len is Some
                    || old(self)@.start_pc is Some;
                &&& already ==> r == Err::<(), Error>(Error::KernelAlreadySet)
                &&& !already && kernel_len > KERNEL_MAX ==> r == Err::<(), Error>(
                    Error::KernelTooLarge,
                )
                &&& r is Ok <==> !already && kernel_len <= KERNEL_MAX
            }),
            r is Err ==> final(self)@ == old(self)@,
            r is Ok ==> final(self)@ == (AArch64LayoutView {
                kernel_start: Some(kernel_start),
                kernel_len: Some(kernel_len),
                start_pc: Some(start_pc),
                ..old(self)@
            }),
    {
        if self.kernel_start.is_some() || self.kernel_len.is_some() || self.start_pc.is_some() {
            return Err(Error::KernelAlreadySet);
        }
        if kernel_len > KERNEL_MAX {
            return Err(Error::KernelTooLarge);
        }
        self.kernel_start = Some(kernel_start);
        self.kernel_len = Some(kernel_len);
        self.start_pc = Some(start_pc);
        Ok(())
    }

    fn get_kernel_start(&self) -> (r: Result<u64, Error>)
        ensures
            match self@.kernel_start {
                Some(v) => r == Ok::<u64, Error>(v),
                None => r == Err::<u64, Error>(Error::KernelUnset),
            },
    {
        match self.kernel_start {
            Some(v) => Ok(v),
            None => Err(Error::KernelUnset),
        }
    }

    fn get_kernel_len(&self) -> (r: Result<usize, Error>)
        ensures
            match self@.kernel_len {
                Some(v) => r == Ok::<usize, Error>(v),
                None => r == Err::<usize, Error>(Error::KernelUnset),
            },
    {
        match self.kernel_len {
            Some(v) => Ok(v),
            None => Err(Error::KernelUnset),
        }
    }

    fn get_start_pc(&self) -> (r: Result<u64, Error>)
        ensures
            match self@.start_pc {
                Some(v) => r == Ok::<u64, Error>(v),
                None => r == Err::<u64, Error>(Error::KernelUnset),
            },
    {
        match self.start_pc {
            Some(v) => Ok(v),
            None => Err(Error::KernelUnset),
        }
    }

    fn get_initrd_start(&self) -> (r: u64)
        ensures
            r == self@.initrd_start,
    {
        self.initrd_start
    }

    /// Sets the length of the initrd, once.
    fn set_initrd_len(&mut self, len: usize) -> (r: Result<(), Error>)
        ensures
            r is Ok <==> old(self)@.initrd_len is None,
            r is Err ==> r == Err::<(), Error>(Error::InitrdAlreadySet),
            final(self)@ == (AArch64LayoutView {
                initrd_len: set_once(old(self)@.initrd_len, len),
                ..old(self)@
            }),
    {
        if self.initrd_len.is_some() {
            return Err(Error::InitrdAlreadySet);
        }
        self.initrd_len = Some(len);
        Ok(())
    }

    fn get_initrd_len(&self) -> (r: Result<usize, Error>)
        ensures
            match self@.initrd_len {
                Some(v) => r == Ok::<usize, Error>(v),
                None => r == Err::<usize, Error>(Error::InitrdUnset),
            },
    {
        match self.initrd_len {
            Some(v) => Ok(v),
            None => Err(Error::InitrdUnset),
        }
    }

    fn get_dtb_start(&self) -> (r: u64)
        ensures
            r == self@.dtb_start,
    {
        self.dtb_start
    }

    /// Sets the length of the device tree blob, once.
    fn set_dtb_len(&mut self, len: usize) -> (r: Result<(), Error>)
        ensures
            r is Ok <==> old(self)@.dtb_len is None,
            r is Err ==> r == Err::<(), Error>(Error::DtbAlreadySet),
            final(self)@ == (AArch64LayoutView {
                dtb_len: set_once(old(self)@.dtb_len, len),
                ..old(self)@
            }),
    {
        if self.dtb_len.is_some() {
            return Err(Error::DtbAlreadySet);
        }
        self.dtb_len = Some(len);
        Ok(())
    }

    /// Every layout of this kind is valid.
    fn validate(&self) -> (r: Result<(), Error>)
        ensures
            r is Ok,
    {
        Ok(())
    }
}

} // verus!
