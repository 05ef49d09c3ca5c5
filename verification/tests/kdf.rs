use hkdf::Hkdf;
use hs_gen::kdf::{derive_epoch_seed, derive_master_key, epoch_of, KdfError, NetworkTag};

#[test]
fn master_key_is_deterministic() {
    let k1 = derive_master_key(b"hunter2").unwrap();
    let k2 = derive_master_key(b"hunter2").unwrap();
    assert_eq!(k1.as_bytes(), k2.as_bytes());
}

#[test]
fn master_key_differs_by_password() {
    let k1 = derive_master_key(b"password1").unwrap();
    let k2 = derive_master_key(b"password2").unwrap();
    assert_ne!(k1.as_bytes(), k2.as_bytes());
}

#[test]
fn epoch_seeds_differ_by_epoch() {
    let master = derive_master_key(b"test").unwrap();
    let s1 = derive_epoch_seed(&master, 0, NetworkTag::Tor);
    let s2 = derive_epoch_seed(&master, 1, NetworkTag::Tor);
    assert_ne!(s1, s2);
}

#[test]
fn epoch_seeds_differ_by_network() {
    let master = derive_master_key(b"test").unwrap();
    let tor = derive_epoch_seed(&master, 42, NetworkTag::Tor);
    let i2p = derive_epoch_seed(&master, 42, NetworkTag::I2p);
    assert_ne!(tor, i2p);
}

#[test]
fn epoch_seed_is_deterministic() {
    let master = derive_master_key(b"test").unwrap();
    let s1 = derive_epoch_seed(&master, 99, NetworkTag::Tor);
    let s2 = derive_epoch_seed(&master, 99, NetworkTag::Tor);
    assert_eq!(s1, s2);
}

#[test]
fn tor_seed_is_32_bytes() {
    let master = derive_master_key(b"test").unwrap();
    let seed = derive_epoch_seed(&master, 0, NetworkTag::Tor);
    assert_eq!(seed.len(), 32);
}

#[test]
fn i2p_seed_is_64_bytes() {
    let master = derive_master_key(b"test").unwrap();
    let seed = derive_epoch_seed(&master, 0, NetworkTag::I2p);
    assert_eq!(seed.len(), 64);
}

#[test]
fn seed_len_per_network() {
    assert_eq!(NetworkTag::Tor.seed_len(), 32);
    assert_eq!(NetworkTag::I2p.seed_len(), 64);
}

#[test]
fn empty_password_is_accepted() {
    assert!(derive_master_key(b"").is_ok());
}

#[test]
fn kdf_error_variant_exists() {
    let e = KdfError::AdTooLong;
    assert_eq!(e, KdfError::AdTooLong);
    assert_eq!(e.message(), argon2::Error::AdTooLong.to_string());
}

#[test]
fn master_key_matches_argon2id_reference() {
    // Argon2id v0x13, m=19456 KiB, t=2, p=1, 32-byte output, salt "hs-gen-v1" + 7 zero bytes.
    let mut expected = [0u8; 32];
    let params = argon2::Params::new(19456, 2, 1, Some(32)).unwrap();
    let ctx = argon2::Argon2::new(argon2::Algorithm::Argon2id, argon2::Version::V0x13, params);
    ctx.hash_password_into(b"hunter2", b"hs-gen-v1\x00\x00\x00\x00\x00\x00\x00", &mut expected)
        .unwrap();
    let k = derive_master_key(b"hunter2").unwrap();
    assert_eq!(k.as_bytes(), &expected);
}

#[test]
fn epoch_seed_matches_hkdf_reference() {
    let master = derive_master_key(b"test").unwrap();
    let mut info = 42u64.to_le_bytes().to_vec();
    info.extend_from_slice(b"i2p-ed25519");
    let hk = Hkdf::<sha2::Sha512>::new(None, master.as_bytes());
    let mut okm = vec![0u8; 64];
    hk.expand(&info, &mut okm).unwrap();
    assert_eq!(derive_epoch_seed(&master, 42, NetworkTag::I2p), okm);
}

#[test]
fn epoch_of_divides_time_by_validity() {
    assert_eq!(epoch_of(7199, 3600), 1);
    assert_eq!(epoch_of(7200, 3600), 2);
    assert_eq!(epoch_of(59, 60), 0);
}

#[test]
fn current_epoch_follows_the_clock() {
    let before = std::time::SystemTime::now()
        .duration_since(std::time::UNIX_EPOCH)
        .unwrap()
        .as_secs();
    let epoch = hs_gen::kdf::current_epoch(3600).unwrap();
    let after = std::time::SystemTime::now()
        .duration_since(std::time::UNIX_EPOCH)
        .unwrap()
        .as_secs();
    assert!(before / 3600 <= epoch && epoch <= after / 3600);
    let now = hs_gen::kdf::unix_now().unwrap();
    assert!(now >= before);
}
