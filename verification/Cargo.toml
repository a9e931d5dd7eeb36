[package]
name = "ephemeral_rotation"
version = "0.1.0"
edition = "2021"
publish = false

[dependencies]
ipnetwork = "*"
log = "*"
tokio = { version = "*", features = ["sync", "time", "rt"] }
