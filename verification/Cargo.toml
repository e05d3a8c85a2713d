[package]
name = "ansiart"
version = "0.1.0"
edition = "2021"
publish = false

[dependencies]
regex = "1"
serde = { version = "1", features = ["derive"] }
serde_json = "1"
csv = "1"
clap = { version = "3", features = ["derive"] }
chrono = "0.4"
rand = "0.8"
image = { version = "0.24", default-features = false, features = ["png", "jpeg", "gif"] }
rodio = { version = "0.17", default-features = false }
