[package]
name = "bundle_engine"
version = "0.1.0"
edition = "2021"
publish = false

[dependencies]
alloy-primitives = { version = "*", features = ["serde"] }
serde = { version = "1", features = ["derive"] }
