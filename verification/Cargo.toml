[package]
name = "qgc_core"
version = "0.1.0"
edition = "2021"
publish = false

[dependencies]
anyhow = "=1.0.104"
futures = "=0.3.34"
mavlink = { version = "=0.17.1", features = ["tokio-1"] }
napi = { version = "=2.16.17", default-features = false, features = ["napi4", "tokio_rt", "serde-json"] }
napi-derive = "=2.16.13"
once_cell = "=1.21.4"
parking_lot = "=0.12.5"
serde = { version = "=1.0.229", features = ["derive"] }
serde_json = "=1.0.154"
serialport = { version = "=4.10.1", default-features = false }
thiserror = "=1.0.69"
tokio = { version = "=1.54.1", features = ["full"] }
