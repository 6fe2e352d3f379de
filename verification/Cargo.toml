[package]
name = "federation"
version = "0.1.0"
edition = "2021"
publish = false

[dependencies]
parity-codec = { version = "=3.5.4", features = ["derive"] }
