[package]
name = "spotifyd_rest"
version = "0.1.0"
edition = "2021"
publish = false

[dependencies]
axum = "=0.6.20"
chrono = "0.4"
futures = "0.3"
librespot-connect = "=0.4.2"
librespot-core = "=0.4.2"
librespot-playback = { version = "=0.4.2", default-features = false }
log = "0.4"
reqwest = { version = "=0.11.27", default-features = false }
rspotify = { version = "=0.13.3", default-features = false, features = ["client-ureq", "ureq-rustls-tls"] }
serde = { version = "1", features = ["derive"] }
serde_json = "=1.0.154"
tokio = { version = "1", features = ["full"] }
