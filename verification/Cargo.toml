[package]
name = "io-oauth"
version = "0.1.0"
edition = "2021"
publish = false

[dependencies]
base64 = "=0.22.1"
http = "=1.5.0"
io-http = "=0.0.1"
io-stream = { version = "=0.0.1", features = ["std"] }
rand = "=0.9.5"
secrecy = { version = "=0.10.3", features = ["serde"] }
serde = { version = "=1.0.229", features = ["derive"] }
serde_json = "=1.0.154"
sha2 = "=0.10.9"
url = "=2.5.8"
