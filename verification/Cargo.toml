[package]
name = "andelink"
version = "0.1.0"
edition = "2021"
publish = false

[dependencies]
serde_json = "=1.0.151"
tokio = { version = "=1.53.2", features = ["rt-multi-thread", "sync", "time", "net", "macros"] }
tokio-tungstenite = "=0.30.0"
futures = "=0.3.34"
async-trait = "=0.1.92"
http = "=1.5.0"
reqwest = { version = "=0.13.5", default-features = false, features = ["json"] }
serde = { version = "*", features = ["derive"] }
