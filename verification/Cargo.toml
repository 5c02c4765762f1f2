[package]
name = "remix_mcp"
version = "0.1.0"
edition = "2021"
publish = false

[dependencies]
rosc = "*"
tokio = { version = "1", features = ["net", "time", "sync", "rt", "rt-multi-thread", "macros"] }
thiserror = "*"
tracing = "*"
serde = { version = "1", features = ["derive"] }
serde_json = "1"
clap = { version = "4", features = ["derive"] }
