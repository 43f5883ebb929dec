[package]
name = "speech_api"
version = "0.1.0"
edition = "2021"
publish = false

[dependencies]
axum = "*"
hound = "3"
lame = "0.1"
lazy_static = "1"
serde = { version = "1", features = ["derive"] }
tower-http = { version = "*", features = ["cors"] }

[dev-dependencies]
serde_json = "1"
