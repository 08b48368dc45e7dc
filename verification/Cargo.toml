[package]
name = "coretime_revenue"
version = "0.1.0"
edition = "2021"
publish = false

[dependencies]
anyhow = "1"
log = "0.4"
serde_json = "1"
subxt = { version = "0.38", default-features = false, features = ["native", "jsonrpsee"] }
subxt-signer = { version = "0.38", default-features = false, features = ["std", "sr25519", "subxt"] }
tokio = { version = "1", features = ["rt-multi-thread", "macros", "time"] }
tracing-subscriber = "0.3"
