[package]
name = "exe_registry"
version = "0.1.0"
edition = "2021"
publish = false

[dependencies]
sqlite = "*"
dirs = "*"
serde = { version = "1", features = ["derive"] }
