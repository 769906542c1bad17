[package]
name = "polyfill_edge"
version = "0.1.0"
edition = "2021"
publish = false

[dependencies]
indexmap = "*"
maud = "*"
serde = { version = "*", features = ["derive"] }
serde_json = "*"
worker = "*"
