[package]
name = "lanshare"
version = "0.1.0"
edition = "2021"
publish = false

[dependencies]
bincode = "1.3"
etherparse = "0.16"
rand = "0.8"
s2n-quic = "1"
serde = { version = "1", features = ["derive"] }
thiserror = "1"
tokio = { version = "1", features = ["full"] }
tracing = "0.1"
tracing-subscriber = "0.3"
tun = { version = "0.7", features = ["async"] }
