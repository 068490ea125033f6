pub mod gsi_routing;
pub mod vcpu;
