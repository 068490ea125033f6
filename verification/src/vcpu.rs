pub mod arch;
pub mod error;
pub mod vcpu;
pub mod vcpu_manager;
