[package]
name = "hyperlight_host"
version = "0.1.0"
edition = "2021"
publish = false

[dependencies]
goblin = "=0.10.7"
rand = "=0.8.8"
kvm-ioctls = "=0.25.1"
kvm-bindings = "=0.14.2"
mshv-ioctls = "=0.7.1"
mshv-bindings = "=0.7.1"
libc = "=0.2.191"
vmm-sys-util = "=0.15.0"
log = "=0.4.35"
serde = { version = "=1.0.229", features = ["derive"] }
serde_json = "=1.0.154"
prometheus = { version = "=0.14.0", default-features = false }
seccompiler = "*"
