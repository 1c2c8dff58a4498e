[package]
name = "pyrunner"
version = "0.1.0"
edition = "2021"
publish = false

[dependencies]
ipc-channel = "*"
nix = { version = "*", features = ["process", "signal"] }
tokio = { version = "*", features = ["rt-multi-thread"] }
