[package]
name = "zeroai"
version = "0.1.0"
edition = "2021"
publish = false

[dependencies]
serde_json = "*"
chrono = { version = "*", default-features = false, features = ["clock"] }
serde = { version = "*", features = ["derive"] }
tokio = { version = "*", features = ["rt-multi-thread", "macros", "net", "sync", "time"] }
axum = "*"
reqwest = { version = "*", default-features = false, features = ["json", "stream"] }
futures = "*"
tracing = "*"
uuid = { version = "*", features = ["v4"] }
rand = "*"
anyhow = "*"
