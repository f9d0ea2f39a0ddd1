[package]
name = "ta_ting"
version = "0.1.0"
edition = "2021"
publish = false

[dependencies]
anyhow = "1"
log = "0.4"
env_logger = "0.11"
serde = { version = "1", features = ["derive"] }
serde_json = "1"
global-hotkey = "0.6"
reqwest = { version = "0.12", default-features = false, features = ["stream", "rustls-tls"] }
tokio = { version = "1", features = ["sync", "fs", "rt", "macros", "io-util"] }
futures-util = "0.3"
bzip2 = "0.4"
tar = "0.4"
