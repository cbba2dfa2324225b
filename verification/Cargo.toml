[package]
name = "egpms"
version = "0.1.0"
edition = "2021"
publish = false

[dependencies]
rusb = "*"
serde = "*"
serde_derive = "*"
toml = "*"
