[package]
name = "eodhd"
version = "0.1.0"
edition = "2021"
publish = false

[dependencies]
url = "*"
chrono = "0.4"
futures-util = "*"
log = "*"
reqwest = { version = "*", default-features = false, features = ["json"] }
serde = { version = "*", features = ["derive"] }
serde_json = "*"
tokio = { version = "*", features = ["sync", "rt"] }
tokio-tungstenite = "*"
