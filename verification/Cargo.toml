[package]
name = "config_store"
version = "0.1.0"
edition = "2021"
publish = false

[dependencies]
json-rpc-types = "=1.3.4"
serde_json = "=1.0.154"
sled = { version = "=0.34.7", features = ["compression"] }
xxhash-rust = { version = "=0.8.19", features = ["xxh3"] }
tokio = { version = "=0.2.25", features = ["rt-core", "blocking", "tcp", "io-util", "sync"] }
arg = "=0.4.6"
c-ffi = "=0.4.6"
rogu = "=0.2.7"
