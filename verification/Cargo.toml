[package]
name = "zkbridge"
version = "0.1.0"
edition = "2021"
publish = false

[dependencies]
serde = { version = "*", features = ["derive"] }
serde_json = "*"
uuid = "*"
time = { version = "*", features = ["formatting"] }
