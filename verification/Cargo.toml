[package]
name = "safe_node"
version = "0.1.0"
edition = "2021"
publish = false

[dependencies]
self_encryption = "=0.36.1"
bincode = "=1.3.3"
xor_name = "=5.0.0"
threshold_crypto = "=0.4.0"
bytes = "=1.12.1"
rand = "0.7"
rand_xorshift = "0.2"
serde = { version = "1", features = ["derive"] }
