[package]
name = "mobailmux"
version = "0.1.0"
edition = "2021"
publish = false

[dependencies]
argon2 = "0.5"
axum = "0.8"
base64 = "0.22"
chrono = "0.4"
hex = "0.4"
pulldown-cmark = { version = "0.13", default-features = false, features = ["html"] }
rand = "0.8"
rusqlite = { version = "*", features = ["bundled"] }
serde = { version = "1", features = ["derive"] }
serde_json = "1"
sha2 = "0.10"
subtle = "2"
tokio = { version = "1", features = ["full"] }
url = "2"
uuid = { version = "1", features = ["v4"] }
