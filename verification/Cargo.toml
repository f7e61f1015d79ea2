[package]
name = "playback_session"
version = "0.1.0"
edition = "2021"
publish = false

[dependencies]
anyhow = "1"
chrono = "0.4"
gtk4 = { version = "*", features = ["v4_12"] }
tokio = { version = "1", default-features = false, features = ["sync"] }
tracing = "0.1"
