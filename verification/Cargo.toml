[package]
name = "kafka-console"
version = "0.1.0"
edition = "2021"
publish = false

[dependencies]
serde_json = { version = "=1.0.154", features = ["float_roundtrip"] }
directories = "=5.0.1"
ureq = { version = "=2.12.1", default-features = false, features = ["tls"] }
