[package]
name = "claude_deck"
version = "0.1.0"
edition = "2021"
publish = false

[dependencies]
mirajazz = "0.16"
reqwest = { version = "0.12", default-features = false, features = ["json", "rustls-tls"] }
tokio = { version = "1", features = ["sync", "time"] }
serde = { version = "1", features = ["derive"] }
serde_json = "1"
chrono = "0.4"
anyhow = "1"
image = "0.25"
imageproc = "0.25"
ab_glyph = "0.2"
futures-lite = "2"
log = "0.4"
keyring = "3"
dirs = "5"
