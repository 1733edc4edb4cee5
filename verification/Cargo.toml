[package]
name = "juke"
version = "0.1.0"
edition = "2021"
publish = false

[dependencies]
rand = "=0.7.3"
rspotify = { version = "0.13", default-features = false, features = ["client-ureq", "ureq-rustls-tls"] }
rouille = "=3.6.2"
librespot = { version = "=0.2.0", default-features = false }
tokio = { version = "1", features = ["rt"] }
failure = "=0.1.8"
log = "=0.4.34"
env_logger = "=0.7.1"
ctrlc = "=3.5.2"
serde = "=1.0.229"
serde_derive = "=1.0.229"
serde_json = "=1.0.154"
