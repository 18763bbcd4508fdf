[package]
name = "nvme-amz"
version = "0.1.0"
edition = "2021"
publish = false

[dependencies]
nix = { version = "0.29", features = ["ioctl"] }
rustix = { version = "0.38" }
