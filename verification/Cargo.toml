[package]
name = "pprof_core"
version = "0.1.1"
edition = "2021"
rust-version = "1.95"
publish = false

[dependencies]
arrow-array = "=59.3.2"
arrow-buffer = "=59.3.2"
arrow-schema = "=59.3.2"
env_logger = "=0.11.11"
flate2 = "=1.1.10"
glob = "=0.3.4"
prost = "=0.14.4"
vgi = { version = "=0.19.0", default-features = false, features = ["transport-http"] }
vgi-rpc = { version = "=0.11.0", default-features = false }
