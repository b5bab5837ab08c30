[package]
name = "cpuid"
version = "0.1.0"
edition = "2021"
publish = false

[dependencies]
kvm-bindings = { version = "*", features = ["fam-wrappers"] }
vmm-sys-util = "*"
thiserror = "1.0"
