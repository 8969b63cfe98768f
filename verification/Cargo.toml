[package]
name = "extauthz_cfzt"
version = "0.1.0"
edition = "2021"
publish = false

[dependencies]
anyhow = "=1.0.104"
clap = { version = "=4.6.7", features = ["derive", "env"] }
envoy-types = "=0.7.7"
log = "=0.4.35"
prometheus = "=0.14.0"
rust-cfzt-validator = "=0.6.0"
serde_json = "=1.0.154"
thiserror = "=2.0.21"
tokio = { version = "=1.54.1", features = ["full"] }
tokio-cron-scheduler = "=0.15.1"
tokio-stream = { version = "=0.1.19", features = ["net"] }
tonic = "=0.14.9"
tracing = "=0.1.44"
tracing-subscriber = "=0.3.23"
ureq = "=3.5.1"
url = "=2.5.8"
