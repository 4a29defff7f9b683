[package]
name = "coffee_server"
version = "0.1.0"
edition = "2021"
publish = false

[dependencies]
anyhow = "1"
nanoid = "0.4"
serde = { version = "1", features = ["derive"] }
serde_json = "1"
sqlx = { version = "0.8", default-features = false, features = ["sqlite", "runtime-tokio", "macros"] }
tokio = { version = "1", features = ["rt-multi-thread", "net", "io-util", "time", "macros"] }
tracing = "0.1"
tracing-subscriber = "0.3"
