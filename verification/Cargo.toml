[package]
name = "vmm_core"
version = "0.1.0"
edition = "2021"
publish = false

[dependencies]
kvm-bindings = "*"
libc = "*"
vmm-sys-util = "*"
