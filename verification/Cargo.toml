[package]
name = "socketio-server"
version = "0.1.0"
edition = "2021"
publish = false

[dependencies]
futures = "0.3"
itertools = "0.10"
serde = "1"
serde_json = "1"
tokio = { version = "1", default-features = false, features = ["rt", "sync", "time"] }
