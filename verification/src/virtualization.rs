pub mod hvp;
pub mod irq_allocator;
pub mod kvm;
pub mod vcpu_loop;
pub mod vm;
