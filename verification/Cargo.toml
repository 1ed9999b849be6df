[package]
name = "must"
version = "0.1.0"
edition = "2021"
publish = false

[dependencies]
clap = "*"
libc = "0.2"
nix = { version = "*", features = ["ioctl"] }
spinners = "*"
tar = "0.4"
