[package]
name = "miu_player"
version = "0.1.0"
edition = "2021"
publish = false

[dependencies]
anyhow = "*"
bytes = "*"
dirs = "*"
futures-util = "*"
reqwest = { version = "*", default-features = false, features = ["json", "stream"] }
rodio = "*"
serde = { version = "*", features = ["derive"] }
serde_json = "*"
tokio = { version = "*", features = ["rt", "rt-multi-thread", "macros", "sync", "time", "io-util"] }
