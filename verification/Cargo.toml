[package]
name = "spice_harvesting"
version = "0.1.0"
edition = "2021"
publish = false

[dependencies]
ggez = { version = "0.9", default-features = false }
serde = { version = "1", features = ["derive"] }
serde_json = "1"
