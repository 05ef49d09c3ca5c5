//! Tor v3 onion-service keys: the key files `tor` reads and the `.onion` host name.
use vstd::prelude::*;
use crate::crypto::{
    ed25519_base_mul, ed25519_clamp, ed25519_public_from_expanded, sha3_256, sha3_256_digest,
    sha512, sha512_digest,
};
use crate::encoding::{
    ascii_chars, base32_address, lemma_base32_address_injective, spec_base32_address,
};

verus! {

/// Header of `hs_ed25519_secret_key`: `== ed25519v1-secret: type0 ==` and three zero bytes.
pub const HEADER_SECRET: [u8; 32] = [
    0x3d, 0x3d, 0x20, 0x65, 0x64, 0x32, 0x35, 0x35, 0x31, 0x39, 0x76, 0x31, 0x2d, 0x73, 0x65, 0x63,
    0x72, 0x65, 0x74, 0x3a, 0x20, 0x74, 0x79, 0x70, 0x65, 0x30, 0x20, 0x3d, 0x3d, 0x00, 0x00, 0x00,
];

/// Header of `hs_ed25519_public_key`: `== ed25519v1-public: type0 ==` and three zero bytes.
pub const HEADER_PUBLIC: [u8; 32] = [
    0x3d, 0x3d, 0x20, 0x65, 0x64, 0x32, 0x35, 0x35, 0x31, 0x39, 0x76, 0x31, 0x2d, 0x70, 0x75, 0x62,
    0x6c, 0x69, 0x63, 0x3a, 0x20, 0x74, 0x79, 0x70, 0x65, 0x30, 0x20, 0x3d, 0x3d, 0x00, 0x00, 0x00,
];

/// Domain prefix of the onion address checksum: `.onion checksum`.
pub const ONION_CHECKSUM_PREFIX: [u8; 15] = [
    0x2e, 0x6f, 0x6e, 0x69, 0x6f, 0x6e, 0x20, 0x63, 0x68, 0x65, 0x63, 0x6b, 0x73, 0x75, 0x6d,
];

/// The suffix of an onion host name: `.onion`.
pub const ONION_SUFFIX: [u8; 6] = [0x2e, 0x6f, 0x6e, 0x69, 0x6f, 0x6e];

/// Onion address version byte.
pub const ONION_VERSION: u8 = 0x03;

/// The files of a Tor v3 hidden service.
pub struct TorKeys {
    /// 96 bytes: `HEADER_SECRET` (32) followed by the expanded secret key (64).
    pub secret_key_file: [u8; 96],
    /// 64 bytes: `HEADER_PUBLIC` (32) followed by the Ed25519 public key (32).
    pub public_key_file: [u8; 64],
    /// 62 characters: 56 base32 characters followed by `.onion`.
    pub hostname: String,
}

/// Tor's clamping of the SHA-512 expansion of the seed: clear the low three bits of byte 0,
/// clear the top two bits of byte 31, then set bit 6 of byte 31.
pub open spec fn tor_clamp(h: Seq<u8>) -> Seq<u8> {
    h.update(0, h[0] & 248u8).update(31, (h[31] & 63u8) | 64u8)
}

/// The 64-byte expanded secret key of a seed: SHA-512 of the seed, clamped.
pub open spec fn spec_expanded_secret_key(seed: Seq<u8>) -> Seq<u8> {
    tor_clamp(sha512(seed))
}

/// The Ed25519 public key of an expanded secret key, as ed25519-dalek derives it.
pub open spec fn spec_tor_public_key(seed: Seq<u8>) -> Seq<u8> {
    ed25519_base_mul(ed25519_clamp(spec_expanded_secret_key(seed).subrange(0, 32)))
}

/// The two checksum bytes of an onion address:
/// `SHA3-256(".onion checksum" || pubkey || version)[0..2]`.
pub open spec fn spec_onion_checksum(pubkey: Seq<u8>) -> Seq<u8> {
    sha3_256(ONION_CHECKSUM_PREFIX@ + pubkey + seq![ONION_VERSION]).subrange(0, 2)
}

/// The 35 address bytes: `pubkey || checksum || version`.
pub open spec fn spec_onion_address(pubkey: Seq<u8>) -> Seq<u8> {
    pubkey + spec_onion_checksum(pubkey) + seq![ONION_VERSION]
}

/// The host name of a public key: lower-case base32 of the address bytes, then `.onion`.
pub open spec fn spec_onion_hostname(pubkey: Seq<u8>) -> Seq<u8> {
    spec_base32_address(spec_onion_address(pubkey), ONION_SUFFIX@)
}

/// `keys` are the Tor keys of `seed`.
pub open spec fn tor_keys_of(keys: TorKeys, seed: Seq<u8>) -> bool {
    &&& keys.secret_key_file@ == HEADER_SECRET@ + spec_expanded_secret_key(seed)
    &&& keys.public_key_file@ == HEADER_PUBLIC@ + spec_tor_public_key(seed)
    &&& keys.hostname@ == ascii_chars(spec_onion_hostname(spec_tor_public_key(seed)))
}

/// Generate Tor v3 hidden service keys from a 32-byte seed.
pub fn generate_tor_keys(seed: &[u8; 32]) -> (r: TorKeys)
    ensures
        tor_keys_of(r, seed@),
        r.hostname@.len() == 62,
        // the host name ends in `.onion`
        r.hostname@.subrange(56, 62) == ascii_chars(ONION_SUFFIX@),
        // the scalar half of the expanded key is clamped
        r.secret_key_file[32] & 7u8 == 0,
        r.secret_key_file[63] & 128u8 == 0,
        r.secret_key_file[63] & 64u8 == 64,
        // SHA-512 of the seed is 64 bytes
        sha512(seed@).len() == 64,
        // the service key is the RFC 8032 Ed25519 public key of the seed
        spec_tor_public_key(seed@) == ed25519_base_mul(
            ed25519_clamp(sha512(seed@).subrange(0, 32)),
        ),
{
    // Key-expand: SHA-512 of the seed, then clamp.
    let mut h = sha512_digest(seed.as_slice());
    h[0] = h[0] & 248;
    h[31] = h[31] & 63;
    h[31] = h[31] | 64;
    assert(h@ =~= spec_expanded_secret_key(seed@));

    let pubkey = ed25519_public_from_expanded(&h);

    let mut secret_key_file = [0u8; 96];
    for i in 0..32
        invariant
            forall|j: int| 0 <= j < i ==> secret_key_file@[j] == HEADER_SECRET@[j],
    {
        secret_key_file[i] = HEADER_SECRET[i];
    }
    for i in 0..64
        invariant
            forall|j: int| 0 <= j < 32 ==> secret_key_file@[j] == HEADER_SECRET@[j],
            forall|j: int| 0 <= j < i ==> secret_key_file@[32 + j] == h@[j],
    {
        secret_key_file[32 + i] = h[i];
    }
    assert(secret_key_file@ =~= HEADER_SECRET@ + h@);

    let mut public_key_file = [0u8; 64];
    for i in 0..32
        invariant
            forall|j: int| 0 <= j < i ==> public_key_file@[j] == HEADER_PUBLIC@[j],
    {
        public_key_file[i] = HEADER_PUBLIC[i];
    }
    for i in 0..32
        invariant
            forall|j: int| 0 <= j < 32 ==> public_key_file@[j] == HEADER_PUBLIC@[j],
            forall|j: int| 0 <= j < i ==> public_key_file@[32 + j] == pubkey@[j],
    {
        public_key_file[32 + i] = pubkey[i];
    }
    assert(public_key_file@ =~= HEADER_PUBLIC@ + pubkey@);

    // checksum = SHA3-256(".onion checksum" || pubkey || version)[0..2]
    let mut checksum_input: Vec<u8> = Vec::new();
    checksum_input.extend_from_slice(ONION_CHECKSUM_PREFIX.as_slice());
    checksum_input.extend_from_slice(pubkey.as_slice());
    checksum_input.push(ONION_VERSION);
    assert(checksum_input@ =~= ONION_CHECKSUM_PREFIX@ + pubkey@ + seq![ONION_VERSION]);
    let digest = sha3_256_digest(checksum_input.as_slice());

    let mut addr_bytes: Vec<u8> = Vec::new();
    addr_bytes.extend_from_slice(pubkey.as_slice());
    addr_bytes.push(digest[0]);
    addr_bytes.push(digest[1]);
    addr_bytes.push(ONION_VERSION);
    assert(addr_bytes@ =~= spec_onion_address(pubkey@));

    let hostname = base32_address(addr_bytes.as_slice(), ONION_SUFFIX.as_slice());
    proof {
        let s = sha512(seed@);
        let h0 = s[0];
        let h31 = s[31];
        assert((h0 & 248u8) & 7u8 == 0 && ((h31 & 63u8) | 64u8) & 128u8 == 0 && ((h31 & 63u8)
            | 64u8) & 64u8 == 64) by (bit_vector);
        assert((h0 & 248u8) & 248u8 == h0 & 248u8 && ((((h31 & 63u8) | 64u8) & 127u8) | 64u8) == (
        h31 & 127u8) | 64u8) by (bit_vector);
        assert(ed25519_clamp(spec_expanded_secret_key(seed@).subrange(0, 32)) =~= ed25519_clamp(
            s.subrange(0, 32),
        ));
        assert(hostname@.subrange(56, 62) =~= ascii_chars(ONION_SUFFIX@));
    }
    TorKeys { secret_key_file, public_key_file, hostname }
}

/// Generation is deterministic: any two key sets generated from the same seed are equal, file
/// for file and in the host name.
pub proof fn lemma_tor_keys_deterministic(k1: TorKeys, k2: TorKeys, seed: Seq<u8>)
    requires
        tor_keys_of(k1, seed),
        tor_keys_of(k2, seed),
    ensures
        k1.secret_key_file@ == k2.secret_key_file@,
        k1.public_key_file@ == k2.public_key_file@,
        k1.hostname@ == k2.hostname@,
{
}

/// An onion host name identifies its service key: two 32-byte public keys with the same host
/// name are the same key.
pub proof fn lemma_onion_hostname_identifies_key(pk1: Seq<u8>, pk2: Seq<u8>)
    requires
        pk1.len() == 32,
        pk2.len() == 32,
        spec_onion_hostname(pk1) == spec_onion_hostname(pk2),
    ensures
        pk1 == pk2,
{
    let a1 = spec_onion_address(pk1);
    let a2 = spec_onion_address(pk2);
    lemma_base32_address_injective(a1, a2, ONION_SUFFIX@);
    assert(a1.subrange(0, 32) =~= pk1);
    assert(a2.subrange(0, 32) =~= pk2);
}

} // verus!
