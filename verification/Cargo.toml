[package]
name = "socketcan_isotp"
version = "0.1.0"
edition = "2021"
publish = false

[dependencies]
bitflags = "*"
libc = "0.2"
nix = { version = "*", features = ["net"] }
thiserror = "*"
