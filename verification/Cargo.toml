[package]
name = "pavu_mixer"
version = "0.1.0"
edition = "2021"
publish = false

[dependencies]
regex = "1"
rusb = "0.9"
serde = { version = "1", features = ["derive"] }
toml = "0.8"
