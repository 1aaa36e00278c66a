[package]
name = "deckd"
version = "0.1.0"
edition = "2021"
publish = false

[dependencies]
ab_glyph = "0.2"
anyhow = "1"
arc-swap = "1"
clap = { version = "4", features = ["derive"] }
elgato-streamdeck = { version = "*", features = ["async"] }
futures = "0.3"
image = { version = "0.25", default-features = false, features = ["png", "jpeg"] }
notify = "6"
notify-debouncer-mini = "0.4"
reqwest = { version = "0.12", default-features = false, features = ["json", "rustls-tls"] }
serde = { version = "1", features = ["derive"] }
serde_json = "1"
thiserror = "1"
tiny-skia = "0.11"
tokio = { version = "1", features = ["full"] }
tokio-util = "0.7"
toml = "0.8"
tracing = "0.1"
tracing-subscriber = { version = "0.3", features = ["env-filter", "json"] }
