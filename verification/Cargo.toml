[package]
name = "twitch_emote_api"
version = "0.1.0"
edition = "2021"
publish = false

[dependencies]
image = "0.25"
serde = { version = "1", features = ["derive"] }
serde_json = "1"
tokio = { version = "1", features = ["rt-multi-thread", "macros", "net", "signal", "time", "sync"] }
axum = "0.7"
http = "1"
reqwest = { version = "0.12", default-features = false, features = ["json", "gzip", "brotli"] }
tower-http = { version = "0.5", features = ["cors", "compression-gzip", "compression-br", "trace"] }
tracing = "0.1"
tracing-subscriber = "0.3"
clap = { version = "4", features = ["derive", "env"] }
dotenvy = "0.15"
either = { version = "1", features = ["serde"] }
futures = "0.3"
thiserror = "1"
url = "2"
