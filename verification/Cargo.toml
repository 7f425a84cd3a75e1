[package]
name = "olm_engine"
version = "0.1.0"
edition = "2021"
publish = false

[dependencies]
olm-rs = "2"
serde = { version = "1", features = ["derive"] }
serde_json = "1"
uuid = { version = "1", features = ["v4"] }
