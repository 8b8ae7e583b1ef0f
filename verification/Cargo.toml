[package]
name = "pong"
version = "0.1.0"
edition = "2021"
publish = false

[dependencies]
chrono = "*"
crossbeam-channel = "*"
fern = "*"
log = "*"
reqwest = { version = "*", features = ["blocking"] }
rodio = "*"
serde = { version = "*", features = ["derive"] }
serde_json = "*"
