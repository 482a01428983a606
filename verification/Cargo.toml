[package]
name = "mermaid_cli_rs"
version = "0.1.0"
edition = "2021"
publish = false

[dependencies]
axum = "*"
camino = "*"
clap = { version = "*", features = ["derive"] }
headless_chrome = "*"
tokio = { version = "*", features = ["rt-multi-thread", "net", "macros"] }
