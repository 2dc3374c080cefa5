[package]
name = "lab_inventory"
version = "0.1.0"
edition = "2021"
publish = false

[dependencies]
base64 = "0.22"
hmac = "0.12"
sha2 = "0.10"
rand = "0.8"
uuid = { version = "1", features = ["v4"] }
url = "2"
chrono = { version = "0.4", default-features = false, features = ["clock", "std"] }
serde_json = "1"
