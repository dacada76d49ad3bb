[package]
name = "mothra_network"
version = "0.1.0"
edition = "2021"
publish = false

[dependencies]
libp2p = { version = "0.22", default-features = false, features = ["gossipsub", "identify"] }
lru = "=0.5.3"
parking_lot = "=0.10.2"
futures = "0.3"
slog = "2.5"
tokio = { version = "0.2", features = ["sync", "rt-core"] }
