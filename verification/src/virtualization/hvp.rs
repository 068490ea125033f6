pub mod vm;
pub mod vcpu_snapshot;
pub mod vcpu_exit;
pub mod gic_snapshot;
