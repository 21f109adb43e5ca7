[package]
name = "game_stream"
version = "0.1.0"
edition = "2021"
publish = false

[dependencies]
anyhow = "*"
axum = { version = "*", features = ["ws"] }
bytes = "*"
chrono = "*"
clap = { version = "*", features = ["derive"] }
futures = "*"
rand = "*"
serde = { version = "*", features = ["derive"] }
serde_json = "*"
thiserror = "*"
tokio = { version = "*", features = ["full"] }
toml = "*"
tower = "*"
tower-http = { version = "*", features = ["cors", "fs"] }
tracing = "*"
tracing-subscriber = { version = "*", features = ["env-filter"] }
uuid = { version = "*", features = ["v4"] }
