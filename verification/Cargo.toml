[package]
name = "hypervisor"
version = "0.1.0"
edition = "2021"
publish = false

[dependencies]
anyhow = "1"
kvm-bindings = { version = "*", features = ["serde"] }
kvm-ioctls = "*"
log = "0.4"
mshv-bindings = "*"
serde = { version = "1", features = ["derive"] }
