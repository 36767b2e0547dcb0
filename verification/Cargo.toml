[package]
name = "cfzt_extauthz"
version = "0.1.0"
edition = "2021"
publish = false

[dependencies]
env_logger = "=0.11.11"
envoy-types = "=0.7.7"
jnt = "=0.2.0"
jsonwebtoken = "=9.3.1"
log = "=0.4.34"
mimalloc = "=0.1.52"
phf = { version = "=0.11.3", features = ["macros"] }
rust-cfzt-validator = "=0.6.0"
serde_json = "=1.0.154"
tokio = { version = "=1.54.1", features = ["rt-multi-thread", "net", "macros"] }
tokio-cron-scheduler = "=0.15.1"
tokio-stream = { version = "=0.1.19", features = ["net"] }
tonic = "=0.14.6"
ureq = "=3.5.0"
url = "=2.5.8"
