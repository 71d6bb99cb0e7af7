[package]
name = "onebot"
version = "0.1.0"
edition = "2021"
publish = false

[dependencies]
serde = { version = "1", features = ["derive"] }
serde_json = "1"
chrono = "0.4"
colored = "*"
rand = "0.8"
anyhow = "1"
smol = "2"
async-tungstenite = { version = "*", features = ["async-std-runtime"] }
tungstenite = "*"
futures = "0.3"
dashmap = "*"
parking_lot = "0.12"
lazy_static = "1"
serde_rusqlite = "*"
serde_with = "3"
ws = "0.9"
