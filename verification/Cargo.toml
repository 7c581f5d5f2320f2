[package]
name = "atm_auto_runner"
version = "0.1.0"
edition = "2021"
publish = false

[dependencies]
regex = "1"
serde = { version = "1", features = ["derive"] }
tokio = { version = "1", features = ["process", "io-util", "rt-multi-thread", "macros"] }
tauri = { version = "2", default-features = false }
