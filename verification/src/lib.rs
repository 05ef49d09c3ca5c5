//! Deterministic key generation for Tor v3 onion services and I2P destinations.
//!
//! A password is stretched with Argon2id into a master key; HKDF-SHA512 turns the master key
//! into one seed per epoch and network; each seed becomes a Tor or I2P key set. The daemon
//! schedule rotates keys at epoch boundaries.
pub mod cli;
pub mod crypto;
pub mod daemon;
pub mod encoding;
pub mod i2p;
pub mod kdf;
pub mod output;
pub mod tor;
