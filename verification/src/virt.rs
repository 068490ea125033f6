pub mod error;
pub mod vm_exit;
