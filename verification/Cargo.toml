[package]
name = "vfio_ioctls"
version = "0.1.0"
edition = "2021"
publish = false

[dependencies]
vfio-bindings = "*"
vmm-sys-util = "*"
kvm-ioctls = "*"
kvm-bindings = "*"
vm-memory = "*"
log = "*"

[dev-dependencies]
byteorder = "*"
