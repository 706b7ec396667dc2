[package]
name = "bitd_sync"
version = "0.1.0"
edition = "2021"
publish = false

[dependencies]
dashmap = "*"
uuid = { version = "*", features = ["v7"] }
axum = { version = "*", features = ["ws"] }
tokio = { version = "*", features = ["rt-multi-thread", "macros", "sync", "net"] }
futures = "*"
serde = { version = "*", features = ["derive"] }
serde_json = "*"
toml = "*"
glob = "*"
anyhow = "*"
thiserror = "*"
