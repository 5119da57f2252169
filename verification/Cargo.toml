[package]
name = "voicepicker"
version = "0.1.0"
edition = "2021"
publish = false

[dependencies]
base64 = "0.22"
serde = { version = "1", features = ["derive"] }
serde_json = "1"
reqwest = { version = "0.12", default-features = false, features = ["blocking", "json"] }
rodio = { version = "0.19", default-features = false, features = ["wav"] }
dirs = "5"
once_cell = "1"
thiserror = "1"
