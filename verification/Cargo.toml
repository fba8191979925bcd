[package]
name = "whisper_input"
version = "0.3.18"
edition = "2021"
publish = false

[dependencies]
handy-keys = "0.3.4"
dirs = "6.0.0"
anyhow = "1.0.104"
clap = { version = "4.5.61", features = ["derive", "env"] }
tracing = "0.1.44"
tracing-subscriber = { version = "0.3.23", features = ["env-filter", "fmt"] }
reqwest = { version = "0.12.28", default-features = false, features = ["blocking", "rustls-tls"] }
arboard = { version = "3.6.1", default-features = false }
objc2 = "0.6.5"
block2 = "0.6.2"
core-foundation-sys = "0.8.7"
