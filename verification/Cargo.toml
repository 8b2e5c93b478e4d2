[package]
name = "reqtui"
version = "0.1.0"
edition = "2021"
publish = false

[dependencies]
anyhow = "*"
base64 = "*"
crossterm = "*"
ratatui = "*"
reqwest = { version = "*", default-features = false }
serde_json = "*"
syntect = { version = "*", default-features = false, features = ["default-fancy"] }
tokio = { version = "*", features = ["full"] }
urlencoding = "*"
