[package]
name = "msr_api_rs"
version = "0.1.0"
edition = "2021"
publish = false

[dependencies]
url = "*"
axum = "*"
reqwest = { version = "*", default-features = false, features = ["json"] }
serde = { version = "*", features = ["derive"] }
serde_json = "*"
tokio = { version = "*", features = ["rt-multi-thread", "macros", "net"] }
dotenvy = "*"
anyhow = "*"
