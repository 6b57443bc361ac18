[package]
name = "virtio-queue"
version = "0.1.0"
edition = "2021"
publish = false

[dependencies]
log = "=0.4.34"
vm-memory = { version = "=0.18.0", features = ["backend-mmap"] }
