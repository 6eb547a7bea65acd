[package]
name = "lightning_sentinel"
version = "0.1.0"
edition = "2021"
publish = false

[dependencies]
regex = "=1.13.1"
serde = { version = "=1.0.229", features = ["derive"] }
serde_json = "=1.0.154"
tokio = { version = "=1.54.1", features = ["full"] }
reqwest = { version = "=0.11.27", default-features = false, features = ["json", "socks", "rustls-tls"] }
pickledb = { version = "=0.5.1", features = ["cbor"] }
dirs = "=4.0.0"
config = "=0.11.0"
log = "=0.4.35"
env_logger = "=0.9.3"
lazy_static = "=1.5.1"
anyhow = "=1.0.104"
notify = "=5.2.0"
libtor = "=47.13.0"
