[package]
name = "rustyrun"
version = "0.1.0"
edition = "2021"

[dependencies]
nix = { version = "*", features = ["sched", "mount", "fs", "hostname"] }
