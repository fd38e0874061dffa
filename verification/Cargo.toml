[package]
name = "buzz"
version = "0.1.0"
edition = "2021"
publish = false

[dependencies]
nostr = { version = "*", default-features = false, features = ["std"] }
uuid = "1"
chrono = "0.4"
moka = { version = "0.12", features = ["sync"] }
reqwest = { version = "0.12", default-features = false, features = ["json", "rustls-tls"] }
serde = { version = "1", features = ["derive"] }
serde_json = "1"
tokio = { version = "1", features = ["full"] }
