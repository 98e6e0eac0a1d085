[package]
name = "rove"
version = "0.1.0"
edition = "2021"
publish = false

[dependencies]
olympian = "*"
chrono = "*"
chronoutil = "*"
serde = { version = "*", features = ["derive"] }
toml = "*"
