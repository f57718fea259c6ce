[package]
name = "elastic_fts"
version = "0.1.0"
edition = "2021"
publish = false

[dependencies]
elasticsearch = { version = "=8.5.0-alpha.1", default-features = false }
serde_json = "=1.0.154"
