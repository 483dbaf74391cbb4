[package]
name = "acme_proxy"
version = "0.1.0"
edition = "2021"
publish = false

[dependencies]
rustls-pemfile = "=2.2.0"
x509-parser = "=0.18.1"
pingora = { version = "=0.9.0", features = ["proxy", "rustls"] }
instant-acme = "=0.8.5"
reqwest = "=0.13.5"
tokio = { version = "=1.53.2", features = ["rt-multi-thread", "time", "macros"] }
serde = { version = "=1.0.229", features = ["derive"] }
serde_json = "=1.0.151"
anyhow = "=1.0.104"
async-trait = "=0.1.92"
rustls = "=0.23.45"

[dev-dependencies]
rcgen = "=0.14.10"
