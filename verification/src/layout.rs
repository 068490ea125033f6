pub mod aarch64;
pub mod x86_64;

use vstd::prelude::*;

verus! {

/// Errors of the guest memory layout.
#[derive(Debug, Clone, PartialEq, Eq)]
pub enum Error {
    ArchAlreadySet(String),
    ArchUnset(String),
    RamSizeAlreadySet,
    RamSizeUnset,
    KernelAlreadySet,
    KernelUnset,
    KernelTooLarge,
    InitrdAlreadySet,
    InitrdUnset,
    DtbAlreadySet,
}

impl Error {
    /// The message that describes the error.
    pub fn message(&self) -> (r: String)
        ensures
            r@ == match self {
                Error::ArchAlreadySet(what) => "arch: "@ + what@ + " already set"@,
                Error::ArchUnset(what) => "arch: "@ + what@ + " unset"@,
                Error::RamSizeAlreadySet => "ram_size already set"@,
                Error::RamSizeUnset => "ram_size unset"@,
                Error::KernelAlreadySet => "kernel already set"@,
                Error::KernelUnset => "kernel unset"@,
                Error::KernelTooLarge => "kernel too large"@,
                Error::InitrdAlreadySet => "initrd already set"@,
                Error::InitrdUnset => "initrd unset"@,
                Error::DtbAlreadySet => "dtb already set"@,
            },
    {
        match self {
            Error::ArchAlreadySet(what) => {
                let mut m = "arch: ".to_string();
                m.append(what.as_str());
                m.append(" already set");
                m
            },
            Error::ArchUnset(what) => {
                let mut m = "arch: ".to_string();
                m.append(what.as_str());
                m.append(" unset");
                m
            },
            Error::RamSizeAlreadySet => "ram_size already set".to_string(),
            Error::RamSizeUnset => "ram_size unset".to_string(),
            Error::KernelAlreadySet => "kernel already set".to_string(),
            Error::KernelUnset => "kernel unset".to_string(),
            Error::KernelTooLarge => "kernel too large".to_string(),
            Error::InitrdAlreadySet => "initrd already set".to_string(),
            Error::InitrdUnset => "initrd unset".to_string(),
            Error::DtbAlreadySet => "dtb already set".to_string(),
        }
    }
}

/// A value that may be set once: `cell` after an attempt to set it to `value`.
pub open spec fn set_once<T>(cell: Option<T>, value: T) -> Option<T> {
    if cell is None {
        Some(value)
    } else {
        cell
    }
}

/// Once a value is set, later attempts leave it as it is.
pub proof fn lemma_set_once_keeps_first<T>(cell: Option<T>, first: T, second: T)
    requires
        cell is None,
    ensures
        set_once(cell, first) == Some(first),
        set_once(set_once(cell, first), second) == Some(first),
{
}

/// Where the parts of a guest are placed in its physical address space.
pub trait MemoryLayout {
    fn get_mmio_start(&self) -> u64;

    fn get_mmio_len(&self) -> usize;

    fn get_ram_base(&self) -> u64;

    fn set_ram_size(&mut self, len: u64) -> Result<(), Error>;

    fn get_ram_size(&self) -> Result<u64, Error>;

    fn set_kernel(&mut self, kernel_start: u64, kernel_len: usize, start_pc: u64) -> Result<(), Error>;

    fn get_kernel_start(&self) -> Result<u64, Error>;

    fn get_kernel_len(&self) -> Result<usize, Error>;

    fn get_start_pc(&self) -> Result<u64, Error>;

    fn get_initrd_start(&self) -> u64;

    fn set_initrd_len(&mut self, len: usize) -> Result<(), Error>;

    fn get_initrd_len(&self) -> Result<usize, Error>;

    fn get_dtb_start(&self) -> u64;

    fn set_dtb_len(&mut self, len: usize) -> Result<(), Error>;

    fn validate(&self) -> Result<(), Error>;
}

} // verus!
