[package]
name = "pulsar_consumer"
version = "0.1.0"
edition = "2021"
publish = false

[dependencies]
async-trait = "0.1"
env_logger = "0.11"
futures = "0.3"
napi = { version = "2", default-features = false, features = ["napi4", "tokio_rt"] }
napi-derive = "2"
pulsar = { version = "6", default-features = false, features = ["tokio-runtime"] }
serde = { version = "1", features = ["derive"] }
serde_json = "1"
