[package]
name = "ferrous_forge"
version = "0.1.0"
edition = "2021"
publish = false

[dependencies]
toml = "0.8"
sha2 = "0.10"
serde = { version = "1", features = ["derive"] }
clap = { version = "4", features = ["derive"] }
dirs = "5"
