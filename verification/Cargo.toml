[package]
name = "classcharts"
version = "0.1.0"
edition = "2021"
publish = false

[dependencies]
serde_json = "*"
url = "*"
urlencoding = "*"
chrono = "*"
reqwest = { version = "*", default-features = false, features = ["blocking", "multipart", "cookies"] }
