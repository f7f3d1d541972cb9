[package]
name = "redirective"
version = "0.1.0"
edition = "2021"
publish = false

[dependencies]
arc-swap = "*"
serde_yaml = "*"
toml = "*"
axum = "*"
tokio = { version = "*", features = ["full"] }
prometheus = "*"
serde = { version = "*", features = ["derive"] }
mime_guess = "*"
tracing = "*"
tracing-subscriber = { version = "*", features = ["env-filter", "json"] }
thiserror = "*"
hyper = "*"
