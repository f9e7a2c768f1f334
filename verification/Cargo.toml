[package]
name = "face_recognition"
version = "0.1.0"
edition = "2021"
publish = false

[dependencies]
candid = "=0.10.37"
ic-cdk = "=0.20.3"
serde = { version = "=1.0.229", features = ["derive"] }
serde_bytes = "=0.11.19"
serde_json = "=1.0.151"
getrandom = { version = "=0.2.17", features = ["custom"] }
