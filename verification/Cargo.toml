[package]
name = "taxer"
version = "0.1.0"
edition = "2021"
publish = false

[dependencies]
regex = "=1.13.1"
uuid = { version = "=1.29.0", features = ["v4"] }
rand = "=0.8.8"
rustc_version_runtime = "0.3"
serde = { version = "=1.0.229", features = ["derive"] }
serde_json = "=1.0.154"
anyhow = "=1.0.104"
tracing = "=0.1.44"
tracing-subscriber = { version = "=0.3.23", default-features = false, features = ["fmt"] }
dotenvy = "=0.15.7"
tokio = { version = "=1.54.1", features = ["rt-multi-thread", "macros", "sync", "process"] }
reqwest = { version = "=0.11.27", default-features = false }
poise = "=0.6.2"
