[package]
name = "satellite_core"
version = "0.1.0"
edition = "2021"
publish = false

[dependencies]
bincode = "1"
rand = "0.8"
serde = { version = "1", features = ["derive"] }
thread-priority = "1"
