[package]
name = "live_preview"
version = "0.1.0"
edition = "2021"
publish = false

[dependencies]
anyhow = "1"
askama = "0.12"
axum = { version = "0.6", features = ["ws"] }
clap = "2"
pulldown-cmark = { version = "0.9", default-features = false }
tokio = { version = "1", features = ["full"] }
