[package]
name = "buttplug"
version = "0.1.0"
edition = "2021"
publish = false

[dependencies]
async-std = "=1.13.2"
async-trait = "=0.1.92"
futures = "=0.3.34"
futures-channel = "=0.3.34"
serde = { version = "=1.0.229", features = ["derive"] }
serde_json = { version = "=1.0.154", features = ["raw_value"] }
thiserror = "=1.0.69"
tokio = { version = "=1.54.1", features = ["macros", "rt", "sync", "time"] }
tokio-util = "=0.7.20"
ws = "=0.9.2"

[dev-dependencies]
mio = "=0.6.23"
