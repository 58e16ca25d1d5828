[package]
name = "rocksdb_sessions"
version = "0.1.0"
edition = "2021"
publish = false

[dependencies]
serde_json = "=1.0.154"
json-patch = "=4.2.0"
