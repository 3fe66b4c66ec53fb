[package]
name = "mmap_rs"
version = "0.1.0"
edition = "2021"
publish = false

[dependencies]
nix = { version = "=0.31.3", features = ["feature", "fs"] }
libc = "=0.2.190"
memmap2 = "=0.9.11"
