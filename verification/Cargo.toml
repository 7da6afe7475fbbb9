[package]
name = "nix_inspect"
version = "0.1.0"
edition = "2021"
publish = false

[dependencies]
serde_json = "1"
kanal = "0.1"
parking_lot = "0.12"
color-eyre = "0.6"
tracing = "0.1"
