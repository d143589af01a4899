[package]
name = "audio_recorder_manager"
version = "0.1.0"
edition = "2021"
publish = false

[dependencies]
chrono = "=0.4.45"
serde = { version = "=1.0.229", features = ["derive"] }
serde_json = "=1.0.154"
anyhow = "=1.0.104"
thiserror = "=2.0.21"
dirs = "=7.0.0"
hound = "=3.5.1"
tokio = { version = "=1.54.1", features = ["full"] }
tracing = "=0.1.44"
tracing-subscriber = { version = "=0.3.23", features = ["env-filter", "fmt"] }
tracing-appender = "=0.2.5"
tracing-log = "=0.2.0"
reqwest = { version = "=0.12.28", default-features = false, features = ["json", "rustls-tls"] }
windows = { version = "=0.58.0", features = ["Win32_Foundation", "Win32_Media_Audio", "Win32_System_Com"] }
