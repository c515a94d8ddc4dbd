[package]
name = "tiger"
version = "0.1.0"
edition = "2021"
publish = false

[dependencies]
pathdiff = "=0.2.3"
serde = { version = "=1.0.229", features = ["derive"] }
serde_json = "=1.0.154"
