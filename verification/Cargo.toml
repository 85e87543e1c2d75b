[package]
name = "tui_runtime"
version = "0.1.0"
edition = "2021"
publish = false

[dependencies]
directories = "*"
tokio = { version = "*", features = ["full"] }
anyhow = "*"
tracing = "*"
