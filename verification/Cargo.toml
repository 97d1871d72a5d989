[package]
name = "content_store"
version = "0.1.0"
edition = "2021"
publish = false

[dependencies]
async-trait = "0.1"
blake2 = "0.9"
bytes = "1"
digest = "0.9"
lru = "0.7"
reqwest = { version = "0.11", default-features = false }
sha2 = "0.9"
sha3 = "0.9"
thiserror = "1"
tokio = { version = "1", features = ["sync"] }
url = "2"
