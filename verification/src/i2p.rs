//! I2P type-7 (EdDSA-SHA512-Ed25519) destination keys in the i2pd `.dat` layout, and the
//! `.b32.i2p` address.
use vstd::prelude::*;
use crate::crypto::{
    ed25519_base_mul, ed25519_clamp, ed25519_public_from_seed, sha256, sha256_digest, sha512,
    x25519_secret_bytes,
};
use crate::encoding::{
    ascii_chars, base32_address, lemma_base32_address_injective, spec_base32_address,
};

verus! {

/// Certificate of a type-7 key certificate: type KEY_CERT (5), length 4 (u16 BE),
/// signing type 7 (u16 BE), crypto type 0 (u16 BE).
pub const CERTIFICATE: [u8; 7] = [0x05, 0x00, 0x04, 0x00, 0x07, 0x00, 0x00];

/// The suffix of an I2P base32 address: `.b32.i2p`.
pub const B32_SUFFIX: [u8; 8] = [0x2e, 0x62, 0x33, 0x32, 0x2e, 0x69, 0x32, 0x70];

/// Length of the public destination.
pub const PUBLIC_DESTINATION_LEN: usize = 391;

/// Length of the whole `.dat` file.
pub const DESTINATION_DAT_LEN: usize = 679;

/// I2P type-7 EdDSA-SHA512-Ed25519 destination keys, i2pd-compatible.
pub struct I2pKeys {
    /// Full .dat file: 391 bytes public + 256 bytes crypto_priv + 32 bytes signing_priv = 679 bytes
    pub destination_dat: Vec<u8>,
    /// base32(SHA-256(391-byte public destination)) + ".b32.i2p"
    pub b32_address: String,
}

/// `n` zero bytes.
pub open spec fn zeros(n: nat) -> Seq<u8> {
    Seq::new(n, |i: int| 0u8)
}

/// The Ed25519 signing public key of the first half of the seed.
pub open spec fn spec_signing_public_key(seed: Seq<u8>) -> Seq<u8> {
    ed25519_base_mul(ed25519_clamp(sha512(seed.subrange(0, 32)).subrange(0, 32)))
}

/// The 391-byte public destination: a 256-byte crypto public key field of zeros (crypto type 0),
/// the 128-byte signing public key field holding the Ed25519 key zero-padded, and the certificate.
pub open spec fn spec_public_destination(signing_public: Seq<u8>) -> Seq<u8> {
    zeros(256) + signing_public + zeros(96) + CERTIFICATE@
}

/// The 679-byte `.dat` file: the public destination, the X25519 private key (second half of the
/// seed) zero-padded to 256 bytes, and the Ed25519 private seed (first half of the seed).
pub open spec fn spec_destination_dat(seed: Seq<u8>) -> Seq<u8> {
    spec_public_destination(spec_signing_public_key(seed)) + seed.subrange(32, 64) + zeros(224)
        + seed.subrange(0, 32)
}

/// The address: lower-case base32 of SHA-256 of the public destination, then `.b32.i2p`.
pub open spec fn spec_b32_address(seed: Seq<u8>) -> Seq<u8> {
    spec_base32_address(
        sha256(spec_public_destination(spec_signing_public_key(seed))),
        B32_SUFFIX@,
    )
}

/// Append `n` zero bytes.
fn push_zeros(v: &mut Vec<u8>, n: usize)
    ensures
        final(v)@ == old(v)@ + zeros(n as nat),
{
    let ghost start = v@;
    for i in 0..n
        invariant
            v@ =~= start + zeros(i as nat),
    {
        v.push(0u8);
    }
}

/// `keys` are the I2P keys of `seed`.
pub open spec fn i2p_keys_of(keys: I2pKeys, seed: Seq<u8>) -> bool {
    &&& keys.destination_dat@ == spec_destination_dat(seed)
    &&& keys.b32_address@ == ascii_chars(spec_b32_address(seed))
}

/// Generate I2P EdDSA-Ed25519 type-7 keys from a 64-byte seed.
/// seed[0..32] → Ed25519 signing key
/// seed[32..64] → X25519 encryption key
pub fn generate_i2p_keys(seed: &[u8; 64]) -> (r: I2pKeys)
    ensures
        i2p_keys_of(r, seed@),
        r.destination_dat@.len() == 679,
        r.destination_dat@.subrange(384, 391) == CERTIFICATE@,
        r.b32_address@.len() == 60,
        r.b32_address@.subrange(52, 60) == ascii_chars(B32_SUFFIX@),
{
    // Ed25519 signing key pair from seed[0..32]
    let mut signing_seed = [0u8; 32];
    for i in 0..32
        invariant
            forall|j: int| 0 <= j < i ==> signing_seed@[j] == seed@[j],
    {
        signing_seed[i] = seed[i];
    }
    assert(signing_seed@ =~= seed@.subrange(0, 32));
    let ed25519_pubkey = ed25519_public_from_seed(&signing_seed);

    // X25519 encryption key from seed[32..64]
    let mut x25519_seed = [0u8; 32];
    for i in 0..32
        invariant
            forall|j: int| 0 <= j < i ==> x25519_seed@[j] == seed@[32 + j],
    {
        x25519_seed[i] = seed[32 + i];
    }
    assert(x25519_seed@ =~= seed@.subrange(32, 64));
    let x25519_secret = x25519_secret_bytes(x25519_seed);

    // Public destination: zero crypto key field, padded signing key field, certificate.
    let mut public_dest: Vec<u8> = Vec::with_capacity(PUBLIC_DESTINATION_LEN);
    push_zeros(&mut public_dest, 256);
    public_dest.extend_from_slice(ed25519_pubkey.as_slice());
    push_zeros(&mut public_dest, 96);
    public_dest.extend_from_slice(CERTIFICATE.as_slice());
    assert(public_dest@ =~= spec_public_destination(spec_signing_public_key(seed@)));

    // Address
    let hash = sha256_digest(public_dest.as_slice());
    let b32_address = base32_address(hash.as_slice(), B32_SUFFIX.as_slice());

    // Assemble the .dat file
    let mut dat = public_dest;
    dat.extend_from_slice(x25519_secret.as_slice());
    push_zeros(&mut dat, 224);
    dat.extend_from_slice(signing_seed.as_slice());
    assert(dat@ =~= spec_destination_dat(seed@));
    assert(dat@.subrange(384, 391) =~= CERTIFICATE@);
    assert(b32_address@.subrange(52, 60) =~= ascii_chars(B32_SUFFIX@));
    I2pKeys { destination_dat: dat, b32_address }
}

/// Generation is deterministic: any two key sets generated from the same seed have the same
/// `.dat` file and the same address.
pub proof fn lemma_i2p_keys_deterministic(k1: I2pKeys, k2: I2pKeys, seed: Seq<u8>)
    requires
        i2p_keys_of(k1, seed),
        i2p_keys_of(k2, seed),
    ensures
        k1.destination_dat@ == k2.destination_dat@,
        k1.b32_address@ == k2.b32_address@,
{
}

/// A b32 address identifies the SHA-256 digest of its public destination: two seeds with the same
/// address have public destinations with the same digest.
pub proof fn lemma_b32_address_identifies_digest(seed1: Seq<u8>, seed2: Seq<u8>)
    requires
        spec_b32_address(seed1) == spec_b32_address(seed2),
    ensures
        sha256(spec_public_destination(spec_signing_public_key(seed1))) == sha256(
            spec_public_destination(spec_signing_public_key(seed2)),
        ),
{
    lemma_base32_address_injective(
        sha256(spec_public_destination(spec_signing_public_key(seed1))),
        sha256(spec_public_destination(spec_signing_public_key(seed2))),
        B32_SUFFIX@,
    );
}

} // verus!
