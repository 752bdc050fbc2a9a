[package]
name = "spotify_companion_widget"
version = "0.1.0"
edition = "2021"
publish = false

[dependencies]
async-trait = "0.1"
atomic-write-file = "0.2"
base64 = "0.22"
chrono = { version = "0.4", features = ["serde"] }
directories = "6"
keyring = "3"
open = "5"
rand = "0.9"
reqwest = { version = "0.12", default-features = false, features = ["json", "rustls-tls"] }
serde = { version = "1", features = ["derive"] }
serde_json = "1"
sha2 = "0.10"
sysinfo = "0.33"
thiserror = "2"
tokio = { version = "1", features = ["full"] }
tracing = "0.1"
tracing-appender = "0.2"
tracing-subscriber = { version = "0.3", features = ["env-filter"] }
url = "2"
uuid = { version = "1", features = ["v4", "serde"] }
webbrowser = "1"
