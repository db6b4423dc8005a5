[package]
name = "mshv-ioctls"
version = "0.1.0"
edition = "2021"
publish = false

[dependencies]
libc = "*"
mshv-bindings = { version = "*", features = ["fam-wrappers"] }
vmm-sys-util = "*"
