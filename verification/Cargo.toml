[package]
name = "dino"
version = "0.1.0"
edition = "2021"
publish = false

[dependencies]
anyhow = "1"
arc-swap = "1"
askama = "0.12"
axum = { version = "0.7", features = ["http2", "query", "tracing"] }
blake3 = "1"
clap = { version = "4", features = ["derive"] }
colored = "2"
darling = "0.20"
dashmap = "6"
dialoguer = "0.11"
enum_dispatch = "0.3"
git2 = { version = "0.19", default-features = false }
glob = "0.3"
indexmap = { version = "2", features = ["serde"] }
matchit = "0.7"
notify = "6"
notify-debouncer-mini = "0.4"
proc-macro2 = "1"
quote = "1"
rquickjs = { version = "0.6", features = ["full"] }
serde = { version = "1", features = ["derive"] }
serde_json = "1"
serde_yaml = "0.9"
syn = { version = "2", features = ["full"] }
thiserror = "1"
tokio = { version = "1", features = ["rt", "rt-multi-thread", "macros", "net", "sync", "fs"] }
tokio-stream = "0.1"
tracing = "0.1"
tracing-subscriber = { version = "0.3", features = ["env-filter"] }
typed-builder = "0.18"
