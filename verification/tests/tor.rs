use sha2::Digest;
use hs_gen::tor::{generate_tor_keys, HEADER_PUBLIC, HEADER_SECRET};

fn test_seed() -> [u8; 32] {
    [0x42u8; 32]
}

#[test]
fn secret_key_file_is_96_bytes() {
    let keys = generate_tor_keys(&test_seed());
    assert_eq!(keys.secret_key_file.len(), 96);
}

#[test]
fn secret_key_file_starts_with_header() {
    let keys = generate_tor_keys(&test_seed());
    assert_eq!(&keys.secret_key_file[..32], &HEADER_SECRET);
}

#[test]
fn public_key_file_is_64_bytes() {
    let keys = generate_tor_keys(&test_seed());
    assert_eq!(keys.public_key_file.len(), 64);
}

#[test]
fn public_key_file_starts_with_header() {
    let keys = generate_tor_keys(&test_seed());
    assert_eq!(&keys.public_key_file[..32], &HEADER_PUBLIC);
}

#[test]
fn hostname_ends_with_onion() {
    let keys = generate_tor_keys(&test_seed());
    assert!(
        keys.hostname.ends_with(".onion"),
        "hostname: {}",
        keys.hostname
    );
}

#[test]
fn hostname_is_62_chars() {
    let keys = generate_tor_keys(&test_seed());
    assert_eq!(
        keys.hostname.len(),
        62,
        "hostname len {}: {}",
        keys.hostname.len(),
        keys.hostname
    );
}

#[test]
fn different_seeds_produce_different_hostnames() {
    let k1 = generate_tor_keys(&[0x01u8; 32]);
    let k2 = generate_tor_keys(&[0x02u8; 32]);
    assert_ne!(k1.hostname, k2.hostname);
}

#[test]
fn generation_is_deterministic() {
    let seed = test_seed();
    let k1 = generate_tor_keys(&seed);
    let k2 = generate_tor_keys(&seed);
    assert_eq!(k1.hostname, k2.hostname);
    assert_eq!(k1.secret_key_file, k2.secret_key_file);
}

#[test]
fn tor_key_is_the_ed25519_key_of_the_seed() {
    let seed = test_seed();
    let keys = generate_tor_keys(&seed);
    let expected = ed25519_dalek::SigningKey::from_bytes(&seed).verifying_key().to_bytes();
    assert_eq!(&keys.public_key_file[32..], &expected);
}

#[test]
fn expanded_key_is_clamped_sha512() {
    let seed = test_seed();
    let keys = generate_tor_keys(&seed);
    let mut h: [u8; 64] = sha2::Sha512::digest(seed).into();
    h[0] &= 248;
    h[31] &= 63;
    h[31] |= 64;
    assert_eq!(&keys.secret_key_file[32..], &h[..]);
    assert_eq!(keys.secret_key_file[32] & 7, 0);
    assert_eq!(keys.secret_key_file[63] & 0xc0, 0x40);
}

#[test]
fn hostname_encodes_key_checksum_and_version() {
    let keys = generate_tor_keys(&test_seed());
    let pk = &keys.public_key_file[32..];
    let mut h = sha3::Sha3_256::new();
    h.update(b".onion checksum");
    h.update(pk);
    h.update([3u8]);
    let c = h.finalize();
    let mut addr = pk.to_vec();
    addr.extend_from_slice(&[c[0], c[1], 3]);
    let expected = format!("{}.onion", data_encoding::BASE32_NOPAD.encode(&addr).to_lowercase());
    assert_eq!(keys.hostname, expected);
    assert!(keys.hostname.ends_with("d.onion"), "version byte 3 ends the address in 'd'");
}
