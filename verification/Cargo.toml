[package]
name = "captive_autoconnect"
version = "0.1.0"
edition = "2021"
publish = false

[dependencies]
anyhow = "1"
clap = { version = "4", features = ["derive"] }
fantoccini = { version = "0.21", default-features = false, features = ["rustls-tls"] }
notify-rust = "4"
open = "5"
reqwest = { version = "0.12", default-features = false }
serde_json = "1"
tokio = { version = "1", features = ["macros", "rt-multi-thread", "process", "time", "io-util"] }
