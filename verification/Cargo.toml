[package]
name = "bore_client"
version = "0.1.0"
edition = "2021"
publish = false

[dependencies]
anyhow = "1"
clap = { version = "4", features = ["derive", "env"] }
tokio = { version = "1", features = ["rt-multi-thread", "io-util", "macros", "net", "time"] }
tracing = "0.1"
tracing-subscriber = "0.3"
uuid = "1"
