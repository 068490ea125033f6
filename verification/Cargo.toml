[package]
name = "vm-core"
version = "0.1.0"
edition = "2021"
publish = false

[dependencies]
kvm-bindings = { version = "=0.14.2", features = ["fam-wrappers"] }
vmm-sys-util = "=0.15.0"
kvm-ioctls = "=0.25.1"
memmap2 = "=0.9.12"
serde = { version = "=1.0.229", features = ["derive"] }
thiserror = "=2.0.21"
applevisor-sys = "=1.0.0"
serde_json = "1"
