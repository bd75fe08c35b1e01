[package]
name = "cyber_live_voice"
version = "0.1.0"
edition = "2021"
publish = false

[dependencies]
serde_json = "*"
cpal = "*"
device_query = "*"
reqwest = { version = "*", default-features = false, features = ["blocking", "multipart"] }
dotenvy = "*"
libc = "*"
