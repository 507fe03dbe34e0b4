[package]
name = "open_cc"
version = "0.1.0"
edition = "2021"
publish = false

[dependencies]
serde = { version = "1", features = ["derive"] }
serde_json = "1"
regex = "1"
uuid = { version = "1", features = ["v4"] }
chrono = "0.4"
similar = "2"
urlencoding = "2"
glob = "0.3"
walkdir = "2"
async-trait = "0.1"
futures = "0.3"
tokio = { version = "1", features = ["full"] }
reqwest = { version = "0.12", default-features = false, features = ["rustls-tls"] }
crossterm = { version = "0.28", features = ["event-stream"] }
ratatui = "0.29"
