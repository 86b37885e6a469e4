[package]
name = "desktop_tui"
version = "0.1.0"
edition = "2021"
publish = false

[dependencies]
anyhow = "=1.0.104"
appcui = { version = "=0.5.6", features = ["TRUE_COLORS"] }
async-channel = "=2.5.0"
chrono = "=0.4.45"
clap = { version = "=4.6.7", features = ["derive"] }
nestify = "=0.3.3"
serde = { version = "=1.0.229", features = ["derive"] }
tokio = { version = "=1.54.1", features = ["full"] }
toml = "=1.1.8"
virtual-terminal = "=0.1.5"
walkdir = "=2.5.0"
