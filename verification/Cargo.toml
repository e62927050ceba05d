[package]
name = "bolti"
version = "0.1.0"
edition = "2021"
publish = false

[dependencies]
bitcoin_hashes = "=1.2.0"
chacha20poly1305 = "=0.11.0"
clap = "=2.34.0"
getrandom = "=0.2.17"
hex = "=0.4.3"
lightning = "=0.2.7"
log = "=0.4.34"
secp256k1 = "=0.33.1"
simplelog = "=0.12.2"
