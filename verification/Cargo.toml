[package]
name = "wfm"
version = "0.1.0"
edition = "2021"
publish = false

[dependencies]
nom = { version = "6", default-features = false, features = ["std"] }
serde = { version = "=1.0.229", features = ["derive"] }
