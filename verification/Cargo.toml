[package]
name = "ts_presence"
version = "0.1.0"
edition = "2021"
publish = false

[dependencies]
anyhow = "*"
axum = "*"
clap = { version = "*", features = ["derive"] }
tokio = { version = "*", features = ["full"] }
