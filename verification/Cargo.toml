[package]
name = "cozo_pool"
version = "0.1.0"
edition = "2021"
publish = false

[dependencies]
anyhow = "1"
async-stream = "0.3"
async-trait = "0.1"
candle-core = "*"
chrono = { version = "0.4", features = ["serde"] }
futures = "0.3"
log = "0.4"
rand = "0.8"
serde = { version = "1", features = ["derive"] }
serde_json = "1"
thiserror = "1"
tokenizers = { version = "*", default-features = false, features = ["onig", "http"] }
tokio = { version = "1", features = ["time", "rt", "rt-multi-thread", "sync"] }
tracing = "0.1"
uuid = { version = "1", features = ["v4", "serde"] }
