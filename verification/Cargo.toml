[package]
name = "rcli"
version = "0.1.0"
edition = "2021"
publish = false

[dependencies]
anyhow = "1"
axum = "0.7"
blake3 = "1"
clap = { version = "4", features = ["derive"] }
ed25519-dalek = "2"
tokio = { version = "1", features = ["rt", "rt-multi-thread", "macros", "net", "fs"] }
tower-http = { version = "0.5", features = ["fs"] }
tracing = "0.1"
tracing-subscriber = "0.3"
