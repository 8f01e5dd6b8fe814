[package]
name = "mullvad_core"
version = "0.1.0"
edition = "2021"
publish = false

[dependencies]
regex = "1"
x25519-dalek = "2"
tokio = { version = "1", features = ["rt-multi-thread", "time", "macros"] }
dirs = "*"
log = "0.4"
