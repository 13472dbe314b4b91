[package]
name = "mob-rs"
version = "0.1.0"
edition = "2021"
publish = false

[dependencies]
config = { version = "=0.15.27", default-features = false, features = ["toml"] }
wax = "=0.7.0"
regex = "=1.13.1"
serde = { version = "=1.0.229", features = ["derive"] }
serde_json = "=1.0.154"
clap = { version = "=4.6.7", features = ["derive", "env"] }
anyhow = "=1.0.104"
tokio = { version = "=1.54.1", features = ["full"] }
tokio-util = "=0.7.20"
tracing = "=0.1.44"
tracing-subscriber = { version = "=0.3.23", features = ["env-filter", "fmt"] }
tracing-appender = "=0.2.5"
reqwest = { version = "=0.12.28", default-features = false, features = ["json", "stream", "rustls-tls"] }
futures-util = "=0.3.34"
indicatif = "=0.17.11"
which = "=7.0.3"
mimalloc = "=0.1.52"

[dev-dependencies]
tempfile = "=3.27.0"
