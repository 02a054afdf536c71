[package]
name = "file_indexer"
version = "0.1.0"
edition = "2021"
publish = false

[dependencies]
ignore = "0.4"
rayon = "1"
serde = { version = "1", features = ["derive"] }
napi = { version = "2", default-features = false, features = ["napi4"] }
napi-derive = "2"
