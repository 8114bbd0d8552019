[package]
name = "removeqtorrent"
version = "0.1.0"
edition = "2021"
publish = false

[dependencies]
bson = "2"
clap = { version = "4", features = ["derive"] }
eyre = "0.6"
futures = "0.3"
infer = "*"
mongodb = "2"
reqwest = { version = "0.11", default-features = false }
serde = { version = "1", features = ["derive"] }
serde_json = "1"
tokio = { version = "1", features = ["macros", "rt-multi-thread"] }
tracing = "0.1"
