[package]
name = "easysales"
version = "0.1.0"
edition = "2021"
publish = false

[dependencies]
serde_json = "=1.0.154"
serde = { version = "=1.0.229", features = ["derive"] }
serde_derive = "=1.0.229"
toml = "=0.8.23"
anyhow = "=1.0.104"
thiserror = "=1.0.69"
log = "=0.4.35"
simplelog = "=0.12.2"
tokio = { version = "=1.54.1", features = ["full"] }
mio = { version = "=0.8.11", features = ["net", "os-poll"] }
dashmap = "=5.5.3"
rocksdb = { version = "=0.21.0", default-features = false }
rustls = "=0.20.9"
rustls-pemfile = "=1.0.4"
actix-web = { version = "=4.18.1", features = ["rustls"] }
actix-cors = "=0.6.5"
async-trait = "=0.1.92"
regex = "=1.13.1"
