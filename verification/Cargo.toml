[package]
name = "auth_error"
version = "0.1.0"
edition = "2021"
publish = false

[dependencies]
log = { version = "=0.4.34", features = ["std"] }
serde_json = "=1.0.151"
