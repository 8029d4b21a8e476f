[package]
name = "sanctum_ai"
version = "0.4.0"
edition = "2021"
publish = false

[dependencies]
serde = { version = "1", features = ["derive"] }
serde_json = "1"
hex = "0.4"
ed25519-dalek = "2"
thiserror = "1"
tokio = { version = "1", features = ["net", "io-util", "sync", "macros", "rt-multi-thread"] }
