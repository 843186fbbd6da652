[package]
name = "blue_gacha"
version = "0.1.0"
edition = "2021"
publish = false

[dependencies]
rand = "0.8"
serde = { version = "1", features = ["derive"] }
serde_repr = "0.1"
serde_json = "1"
