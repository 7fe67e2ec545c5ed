[package]
name = "talks"
version = "0.1.0"
edition = "2021"
publish = false

[dependencies]
petgraph = "0.6"
indexmap = "2"
ron = "0.8"
serde = { version = "1", features = ["derive"] }
