[package]
name = "virtio_balloon"
version = "0.1.0"
edition = "2021"
publish = false

[dependencies]
epoll = "4"
libc = "0.2"
log = "0.4"
vm-memory = { version = "=0.5.0", features = ["backend-mmap", "backend-atomic"] }
vmm-sys-util = "0.6"
