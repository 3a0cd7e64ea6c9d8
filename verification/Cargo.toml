[package]
name = "lndbalancer"
version = "0.1.0"
edition = "2021"
publish = false

[dependencies]
futures = "0.3"
serde = { version = "1", features = ["derive"] }
serde_yaml = "0.9"
tokio = { version = "1", features = ["full"] }
tonic_lnd = "0.5"
tracing = "0.1"
tracing-subscriber = "0.3"
warp = "0.3"
