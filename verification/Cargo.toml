[package]
name = "yambar_disk"
version = "1.0.0"
edition = "2021"
publish = false

[dependencies]
clap = { version = "=4.6.7", features = ["string"] }
nix = { version = "=0.29.0", features = ["fs"] }
