[package]
name = "rust-iptables"
version = "0.1.0"
edition = "2021"
publish = false

[dependencies]
nix = "=0.20.2"
regex = "=1.13.1"
