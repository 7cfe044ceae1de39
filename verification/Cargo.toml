[package]
name = "linuxvideo"
version = "0.1.0"
edition = "2021"
publish = false

[dependencies]
log = "=0.4.34"
nix = { version = "=0.31.3", features = ["fs", "ioctl", "mman"] }
