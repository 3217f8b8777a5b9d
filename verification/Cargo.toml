[package]
name = "okx_rest"
version = "0.1.0"
edition = "2021"
publish = false

[dependencies]
anyhow = "1"
base64 = "0.22"
chrono = "0.4"
hmac = "0.12"
reqwest = { version = "0.12", default-features = false, features = ["json"] }
serde_json = { version = "1", features = ["preserve_order"] }
sha2 = "0.10"
url = "2"
