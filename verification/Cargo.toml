[package]
name = "net_bandwidth_limiter"
version = "0.1.0"
edition = "2021"
publish = false

[dependencies]
tokio = { version = "1", features = ["full"] }
log = "0.4"
env_logger = "0.10"
structopt = "0.3"
parse-size = "1"
