[package]
name = "framer"
version = "0.1.0"
edition = "2021"
publish = false

[dependencies]
byteorder = { version = "=1.5.0", default-features = false }
cobs = { version = "=0.3.0", default-features = false }
crc32fast = { version = "=1.5.3", default-features = false }
serde = { version = "=1.0.229", default-features = false, features = ["derive"] }
serde-json-core = { version = "=0.7.0", default-features = false }
