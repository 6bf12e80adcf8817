[package]
name = "fctools"
version = "0.1.0"
edition = "2021"
publish = false

[dependencies]
nix = { version = "*", features = ["user", "fs", "process", "signal"] }
serde_json = "*"
