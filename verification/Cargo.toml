[package]
name = "hs_gen"
version = "0.1.0"
edition = "2021"
publish = false

[dependencies]
argon2 = "0.5"
hkdf = "0.12"
sha2 = "0.10"
sha3 = "0.10"
ed25519-dalek = { version = "2", features = ["hazmat"] }
x25519-dalek = { version = "2", features = ["static_secrets"] }
data-encoding = "2"
zeroize = { version = "1", features = ["derive"] }
clap = { version = "4", features = ["derive"] }
ctrlc = "3"
serde = { version = "1", features = ["derive"] }
serde_json = "1"
