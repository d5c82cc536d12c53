[package]
name = "virtio_devices"
version = "0.1.0"
edition = "2021"
publish = false

[dependencies]
anyhow = "=1.0.104"
arbitrary-int = "=1.3.0"
arc-swap = "=1.9.3"
clap = { version = "=4.6.7", features = ["derive"] }
derive_more = { version = "=1.0.0", features = ["as_ref"] }
env_logger = "=0.11.11"
libc = "=0.2.191"
log = "=0.4.35"
nix = { version = "=0.29.0", features = ["fs", "poll", "term"] }
proc-macro2 = "=1.0.107"
quote = "=1.0.47"
rutabaga_gfx = "=0.1.85"
syn = { version = "=2.0.119", features = ["full"] }
thiserror = "=1.0.69"
vhost = { version = "=0.13.0", features = ["vhost-user", "vhost-user-backend"] }
virtio-bindings = "=0.2.7"
virtio-queue = "=0.14.0"
vm-memory = { version = "=0.16.2", features = ["backend-mmap", "backend-atomic", "backend-bitmap"] }
vmm-sys-util = "=0.12.1"
