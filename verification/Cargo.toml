[package]
name = "matrix_firefly_bot"
version = "0.1.0"
edition = "2021"
publish = false

[dependencies]
anyhow = "1"
chrono = "0.4"
dirs = "5"
matrix-sdk = { version = "0.10", default-features = false, features = ["sqlite", "native-tls"] }
rand = "0.8"
regex = "1"
reqwest = { version = "0.12", features = ["json"] }
serde = { version = "1", features = ["derive"] }
serde_json = "1"
tokio = { version = "1", features = ["fs", "macros", "rt-multi-thread"] }
toml = "0.8"
tracing-subscriber = "0.3"
