[package]
name = "language_query"
version = "0.1.0"
edition = "2021"
publish = false

[dependencies]
anyhow = "1"
async-lsp = "0.2"
async-process = "2"
async-trait = "0.1"
clap = { version = "4", features = ["derive"] }
futures = "0.3"
lsp-types = "0.95"
serde = { version = "1", features = ["derive"] }
serde_json = "1"
sha2 = "0.10"
shellexpand = "3"
signal-hook = "0.3"
signal-hook-tokio = { version = "0.3", features = ["futures-v0_3"] }
tokio = { version = "1", features = ["full"] }
tower = "0.4"
tracing = "0.1"
tracing-subscriber = { version = "0.3", features = ["env-filter"] }
url = "2"
uuid = { version = "1", features = ["v4"] }
