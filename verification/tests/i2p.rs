use sha2::Digest;
use hs_gen::i2p::{generate_i2p_keys, CERTIFICATE};

fn test_seed() -> [u8; 64] {
    [0x55u8; 64]
}

#[test]
fn destination_dat_is_679_bytes() {
    let keys = generate_i2p_keys(&test_seed());
    assert_eq!(keys.destination_dat.len(), 679);
}

#[test]
fn certificate_bytes_are_correct() {
    let keys = generate_i2p_keys(&test_seed());
    assert_eq!(&keys.destination_dat[384..391], &CERTIFICATE);
}

#[test]
fn b32_address_ends_with_b32_i2p() {
    let keys = generate_i2p_keys(&test_seed());
    assert!(keys.b32_address.ends_with(".b32.i2p"), "b32: {}", keys.b32_address);
}

#[test]
fn deterministic() {
    let seed = test_seed();
    let k1 = generate_i2p_keys(&seed);
    let k2 = generate_i2p_keys(&seed);
    assert_eq!(k1.b32_address, k2.b32_address);
    assert_eq!(k1.destination_dat, k2.destination_dat);
}

#[test]
fn different_seeds_produce_different_addresses() {
    let k1 = generate_i2p_keys(&[0x01u8; 64]);
    let k2 = generate_i2p_keys(&[0x02u8; 64]);
    assert_ne!(k1.b32_address, k2.b32_address);
}

#[test]
fn public_destination_is_391_bytes() {
    let keys = generate_i2p_keys(&test_seed());
    assert_eq!(keys.destination_dat[..391].len(), 391);
}

#[test]
fn dat_layout_holds_keys_in_place() {
    let mut seed = [0u8; 64];
    for (i, b) in seed.iter_mut().enumerate() {
        *b = i as u8;
    }
    let keys = generate_i2p_keys(&seed);
    let dat = &keys.destination_dat;
    assert!(dat[..256].iter().all(|b| *b == 0));
    let signing: [u8; 32] = seed[..32].try_into().unwrap();
    let pk = ed25519_dalek::SigningKey::from_bytes(&signing).verifying_key().to_bytes();
    assert_eq!(&dat[256..288], &pk);
    assert!(dat[288..384].iter().all(|b| *b == 0));
    assert_eq!(&dat[391..423], &seed[32..64]);
    assert!(dat[423..647].iter().all(|b| *b == 0));
    assert_eq!(&dat[647..679], &seed[..32]);
}

#[test]
fn b32_address_is_sha256_of_public_destination() {
    let keys = generate_i2p_keys(&test_seed());
    let hash = sha2::Sha256::digest(&keys.destination_dat[..391]);
    let expected = format!("{}.b32.i2p", data_encoding::BASE32_NOPAD.encode(&hash).to_lowercase());
    assert_eq!(keys.b32_address, expected);
    assert_eq!(keys.b32_address.len(), 60);
}
