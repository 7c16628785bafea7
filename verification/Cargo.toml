[package]
name = "clux"
version = "0.1.0"
edition = "2021"
publish = false

[dependencies]
smithay = "*"
dirs = "*"
serde = { version = "*", features = ["derive"] }
toml = "*"
tracing = "*"
tracing-subscriber = { version = "*", features = ["env-filter"] }
