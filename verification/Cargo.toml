[package]
name = "v2link"
version = "0.1.0"
edition = "2021"
publish = false

[dependencies]
base64 = "0.13"
urlencoding = "2"
serde_json = "1"
serde = { version = "1", features = ["derive"] }
dirs = "5"
uuid = { version = "1", features = ["v4"] }
reqwest = { version = "0.12", default-features = false, features = ["blocking"] }
