[package]
name = "lumina-latency-monitor"
version = "0.1.0"
edition = "2021"
publish = false

[dependencies]
anyhow = "=1.0.104"
base64 = "=0.22.1"
bech32 = "=0.11.1"
cargo_metadata = "=0.23.1"
celestia-grpc = "*"
celestia-types = "*"
clap = { version = "=4.6.7", features = ["derive", "env"] }
csv = "=1.4.0"
dirs = "=5.0.1"
futures = "=0.3.34"
hex = "=0.4.3"
http-body-util = "=0.1.5"
humantime = "=2.4.0"
hyper = { version = "=1.12.0", features = ["server", "http1"] }
hyper-util = { version = "=0.1.21", features = ["tokio"] }
josekit = "=0.10.3"
lazy_static = "=1.5.1"
parse_duration = "=2.1.1"
prometheus = "=0.13.4"
prost = "=0.13.5"
rand = "=0.8.8"
ripemd = "=0.1.3"
serde = { version = "=1.0.229", features = ["derive"] }
serde_json = "=1.0.154"
sha2 = "=0.10.9"
thiserror = "=1.0.69"
tokio = { version = "=1.54.1", features = ["full"] }
