[package]
name = "checkout"
version = "0.1.0"
edition = "2021"
publish = false

[dependencies]
base64 = "0.22"
serde_json = "1"
axum = "0.8"
tokio = { version = "1", features = ["macros", "rt-multi-thread", "net"] }
clap = { version = "4", features = ["derive"] }
