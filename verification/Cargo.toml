[package]
name = "yacrypt"
version = "0.1.0"
edition = "2021"
publish = false

[dependencies]
argon2 = "0.5"
base64 = "0.22"
chacha20poly1305 = "0.10"
clap = { version = "4", features = ["derive"] }
dialoguer = "0.11"
ed25519-dalek = { version = "2", features = ["pkcs8", "rand_core"] }
hex = "0.4"
hkdf = "0.12"
libc = "0.2"
pkcs8 = { version = "0.10", features = ["alloc"] }
rand = "0.8"
sha2 = "0.10"
x25519-dalek = { version = "2", features = ["static_secrets"] }
zeroize = "1"
