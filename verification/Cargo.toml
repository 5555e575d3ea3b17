[package]
name = "bft_sync"
version = "0.1.0"
edition = "2021"
publish = false

[dependencies]
bs58 = "0.5"
bytes = "1"
derive-where = "1"
multiaddr = "0.18"
multihash = "0.19"
ractor = "*"
rand = "0.8"
serde = { version = "1", features = ["derive"] }
thiserror = "1"
tokio = { version = "1", features = ["sync", "rt", "macros"] }
tracing = "0.1"
