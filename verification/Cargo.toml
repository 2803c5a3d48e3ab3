[package]
name = "rpc_it"
version = "0.1.0"
edition = "2021"
publish = false

[dependencies]
bytes = "1"
rmp = "0.8"
atoi = "2"
itoa = "1"
serde = { version = "1", features = ["derive"] }
serde_json = { version = "1", features = ["raw_value"] }
rmp-serde = "1"
postcard = { version = "1", features = ["use-std"] }
thiserror = "1"
futures = "0.3"
crossbeam-queue = "0.3"
