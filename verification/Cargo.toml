[package]
name = "zff"
version = "0.1.0"
edition = "2021"
publish = false

[dependencies]
aes-gcm-siv = "0.11"
byteorder = "1"
crc32fast = "1"
lz4_flex = "0.11"
pkcs5 = { version = "0.7", features = ["alloc", "pbes2"] }
scrypt = { version = "0.11", default-features = false }
serde = { version = "1", features = ["derive"] }
slice = "*"
zstd = "0.13"

[dev-dependencies]
ed25519-dalek = "2"
