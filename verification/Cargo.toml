[package]
name = "khinsider_app"
version = "0.1.0"
edition = "2021"
publish = false

[dependencies]
serde = { version = "=1.0.229", features = ["derive"] }
serde_json = "=1.0.154"
sha2 = "=0.10.9"
base64 = "=0.22.1"
rand = "=0.8.8"
url = "=2.5.8"
urlencoding = "=2.1.3"
anyhow = "=1.0.104"
futures-util = { version = "=0.3.34", features = ["sink"] }
tokio = { version = "=1.54.1", features = ["rt-multi-thread", "sync", "time", "macros"] }
tokio-tungstenite = { version = "=0.30.0", features = ["rustls-tls-webpki-roots"] }
reqwest = { version = "=0.12.28", default-features = false, features = ["json", "rustls-tls", "blocking"] }
discord-rich-presence = "=1.1.0"
rodio = "=0.20.1"
