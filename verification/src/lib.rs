pub mod layout;
pub mod mm;
pub mod utils;
pub mod vcpu;
pub mod virt;
pub mod virtualization;
