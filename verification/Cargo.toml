[package]
name = "ggml_pipeline"
version = "0.1.0"
edition = "2021"
publish = false

[dependencies]
axum = "*"
http = "*"
serde = { version = "*", features = ["derive"] }
serde_json = "*"
tokio = { version = "*", features = ["rt-multi-thread", "macros"] }
