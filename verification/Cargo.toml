[package]
name = "subprocess_inject_env"
version = "0.1.0"
edition = "2021"
publish = false

[dependencies]
rand = "0.8"
tempfile = "3"
nix = "*"
