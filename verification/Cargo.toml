[package]
name = "dali_tools"
version = "0.1.0"
edition = "2021"
publish = false

[dependencies]
rand = "=0.10.3"
serde_json = "=1.0.154"
tokio = { version = "=1.54.1", features = ["rt-multi-thread", "macros", "time", "sync", "io-util"] }
tokio-serial = { version = "*", default-features = false }
tokio-modbus = { version = "*", default-features = false, features = ["rtu"] }
nix = { version = "*", features = ["poll"] }
futures = "*"
