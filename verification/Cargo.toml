[package]
name = "arsdk"
version = "0.1.0"
edition = "2021"
publish = false

[dependencies]
chrono = "0.4"
log = "0.4"
pnet = "*"
serde = { version = "1", features = ["derive"] }
serde_json = "1"
thiserror = "*"
