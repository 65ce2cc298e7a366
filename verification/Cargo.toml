[package]
name = "stfu"
version = "0.1.0"
edition = "2021"
publish = false

[dependencies]
twilight-model = "=0.16.0"
twilight-cache-inmemory = "=0.16.0"
twilight-util = { version = "=0.16.0", features = ["permission-calculator"] }
twilight-http = { version = "=0.16.0", default-features = false }
twilight-gateway = { version = "=0.16.0", default-features = false }
bitflags = "=2.13.2"
serde = { version = "=1.0.229", features = ["derive"] }
serde_json = "=1.0.154"
bincode = "=1.3.3"
argh = "=0.1.19"
anyhow = "=1.0.104"
urlencoding = "=2.1.3"
log = "=0.4.35"
tokio = { version = "=1.54.1", features = ["full"] }
futures = "=0.3.34"
rocket = { version = "=0.5.2", features = ["secrets"] }
juniper = { version = "=0.16.2", default-features = false }
juniper_rocket = "=0.9.0"
rocket_cors = "=0.6.0"
reqwest = { version = "=0.12.28", default-features = false }
dotenv = "=0.15.0"
envy = "=0.4.2"
pretty_env_logger = "=0.5.0"
async-std = { version = "=1.13.2", features = ["attributes"] }
serenity = { version = "=0.12.5", default-features = false, features = ["builder", "cache", "client", "gateway", "model", "rustls_backend"] }
notify-rust = "=4.18.2"
