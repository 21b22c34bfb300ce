[package]
name = "kari_agent"
version = "0.1.0"
edition = "2021"
publish = false

[dependencies]
regex = "=1.13.1"
chrono = "=0.4.45"
secrecy = "=0.8.0"
tokio = { version = "=1.54.1", features = ["full"] }
tokio-stream = "=0.1.19"
tonic = "=0.12.3"
prost = { version = "=0.13.5", features = ["derive"] }
async-trait = "=0.1.92"
async-stream = "=0.3.6"
tempfile = "=3.27.0"
nix = { version = "=0.29.0", features = ["fs", "user"] }
tracing = "=0.1.44"
tracing-subscriber = "=0.3.23"
