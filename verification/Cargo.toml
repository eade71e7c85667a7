[package]
name = "recorder"
version = "0.1.0"
edition = "2021"
publish = false

[dependencies]
hound = "*"
uuid = { version = "*", features = ["v4"] }
cpal = "*"
serde = { version = "*", features = ["derive"] }
serde_json = "*"
