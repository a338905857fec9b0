[package]
name = "spotify_remote"
version = "0.1.0"
edition = "2021"
publish = false

[dependencies]
anyhow = "=1.0.104"
async-sqlite = "=0.7.0"
axum = { version = "=0.8.9", features = ["macros"] }
futures = "=0.3.34"
http = "=1.5.0"
librespot = { version = "=0.8.0", default-features = false, features = ["rustls-tls-webpki-roots"] }
rspotify = { version = "=0.16.1", default-features = false, features = ["client-reqwest", "reqwest-rustls-tls"] }
serde = { version = "=1.0.229", features = ["derive"] }
serde_json = "=1.0.154"
tokio = { version = "=1.54.1", features = ["macros", "rt-multi-thread", "net", "sync"] }
vergen = "=9.0.6"
