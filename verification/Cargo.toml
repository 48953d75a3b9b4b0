[package]
name = "mustream"
version = "0.1.0"
edition = "2021"
publish = false

[dependencies]
anyhow = "1"
crossterm = "0.27"
rand = "0.8"
ratatui = "0.26"
reqwest = { version = "0.12", default-features = false, features = ["blocking", "json", "rustls-tls"] }
rodio = "0.17"
serde = { version = "1", features = ["derive"] }
