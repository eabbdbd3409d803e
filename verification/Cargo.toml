[package]
name = "outwiker"
version = "0.1.0"
edition = "2021"
publish = false

[dependencies]
anyhow = "1"
interprocess = "2"
rmp-serde = "1"
serde = { version = "1", features = ["derive"] }
serde_json = "1"
thiserror = "*"
tokio = { version = "1", features = ["rt-multi-thread", "macros", "io-util", "io-std", "net"] }
tracing = "0.1"
tracing-subscriber = { version = "0.3", features = ["env-filter", "fmt"] }
