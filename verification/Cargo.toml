[package]
name = "cloud_print"
version = "0.1.0"
edition = "2021"
publish = false

[dependencies]
ulid = "*"
chrono = "*"
log = "*"
serde = { version = "*", features = ["derive"] }
serde_json = "*"
serde_yaml = "*"
notify = "*"
reqwest = { version = "*", default-features = false, features = ["blocking"] }
websocket = { version = "*", default-features = false, features = ["sync"] }
