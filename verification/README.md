# hs_gen

Deterministic key generation for Tor v3 onion services and I2P destinations, written in Verus.

A password is stretched with Argon2id into a master key. HKDF-SHA512 derives from it one seed
per epoch (`unix_time / validity`) and network. A 32-byte seed becomes a Tor key set (the
`hs_ed25519_secret_key` and `hs_ed25519_public_key` files and the `.onion` host name); a 64-byte
seed becomes an i2pd-compatible type-7 `destination.dat` and its `.b32.i2p` address.

Layout:

- `src/` — the verified library.
  - `kdf` — password stretch, per-epoch seeds, epochs from the clock.
  - `crypto` — the hash and curve operations, called in their crates behind trusted wrappers.
  - `encoding` — base32, base64, ASCII case folding and decimal numerals.
  - `tor`, `i2p` — the key formats and addresses.
  - `output` — stdout reports, service-directory files and paths.
  - `daemon` — the rotation schedule as a state machine.
  - `cli` — command-line checks and password trimming.
- `app/` — the `hs-gen` program: argument parsing, stdin, files, threads, signals and JSON.
- `tests/` — tests of the library.
