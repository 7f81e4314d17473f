[package]
name = "vsock"
version = "0.1.0"
edition = "2021"
publish = false

[dependencies]
epoll = "=4.4.0"
log = "=0.4.34"
virtio-vsock = "=0.12.0"
vm-memory = "=0.18.0"

[dev-dependencies]
virtio-queue = { version = "=0.18.0", features = ["test-utils"] }
vm-memory = { version = "=0.18.0", features = ["backend-mmap"] }
