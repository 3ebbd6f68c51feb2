[package]
name = "apalache_learn"
version = "0.1.0"
edition = "2021"
publish = false

[dependencies]
tla-connect = { version = "=0.0.4", features = ["rpc"] }
serde_json = "=1.0.154"
tokio = { version = "=1.54.1", features = ["rt", "rt-multi-thread", "macros"] }
