[package]
name = "libretto"
version = "0.1.0"
edition = "2021"
publish = false

[dependencies]
log = "*"
notify = { version = "*", features = ["serde"] }
serde = { version = "*", features = ["derive"] }
serde_json = "*"
tokio = { version = "*", features = ["full"] }
