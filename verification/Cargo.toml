[package]
name = "command_bridge"
version = "0.1.0"
edition = "2021"
publish = false

[dependencies]
proc-macro2 = "1"

[dev-dependencies]
serde_json = "1"
