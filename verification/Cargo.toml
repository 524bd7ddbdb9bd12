[package]
name = "usiem_enrichment"
version = "0.1.0"
edition = "2021"
publish = false

[dependencies]
serde = { version = "1", features = ["derive"] }
serde_json = "1"
reqwest = { version = "=0.11.27", default-features = false }
tokio = { version = "1", features = ["fs", "io-util", "rt", "rt-multi-thread", "macros"] }
zip = { version = "=8.6.0", default-features = false, features = ["deflate"] }
