[package]
name = "fzstream-client"
version = "0.1.0"
edition = "2021"
publish = false

[dependencies]
lz4 = "1"
zstd = "0.13"
crossbeam-queue = "0.3"
url = "2"
tokio = { version = "1", features = ["rt-multi-thread", "macros", "sync", "time"] }
quinn = { version = "0.11", default-features = false, features = ["runtime-tokio", "rustls-ring", "log"] }
rustls = { version = "0.23", default-features = false, features = ["ring", "std", "logging", "tls12"] }
serde = { version = "1", features = ["derive"] }
serde_json = "1"
bincode = "1"
uuid = { version = "1", features = ["v4"] }
anyhow = "1"
log = "0.4"
parking_lot = "0.12"
