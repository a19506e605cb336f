[package]
name = "euclid"
version = "0.19.0"
edition = "2021"
publish = false

[dependencies]
num-traits = "0.2"
mint = "0.5"
serde = { version = "1", features = ["derive"] }

[dev-dependencies]
serde_json = "1"
