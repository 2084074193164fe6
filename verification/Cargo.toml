[package]
name = "std-embedded-nal"
version = "0.1.0"
edition = "2021"
publish = false

[dependencies]
embedded-nal = "=0.9.0"
embedded-nal-async = "=0.9.0"
embedded-io-async = { version = "=0.7.0", features = ["std"] }
nix = { version = "=0.31.3", features = ["net", "socket", "uio"] }
async-std = "=1.13.2"
async-io = "=2.6.0"
dns-lookup = "=4.0.2"
