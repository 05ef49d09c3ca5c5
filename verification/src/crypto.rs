//! The hash functions and curve operations the key formats are built from. Each is called in its
//! outside crate; what is not stated in a few lines is named by an uninterpreted function.
use sha2::Digest;
use vstd::prelude::*;

verus! {

/// SHA-512 of `data` (FIPS 180-4).
pub uninterp spec fn sha512(data: Seq<u8>) -> Seq<u8>;

/// SHA-256 of `data` (FIPS 180-4).
pub uninterp spec fn sha256(data: Seq<u8>) -> Seq<u8>;

/// SHA3-256 of `data` (FIPS 202).
pub uninterp spec fn sha3_256(data: Seq<u8>) -> Seq<u8>;

/// The compressed Edwards point `[s]B`, where `B` is the Ed25519 base point and `s` is the
/// little-endian integer `scalar` reduced modulo the group order.
pub uninterp spec fn ed25519_base_mul(scalar: Seq<u8>) -> Seq<u8>;

/// RFC 8032 / RFC 7748 clamping of a 32-byte little-endian scalar: clear the low three bits,
/// clear bit 255, set bit 254.
pub open spec fn ed25519_clamp(s: Seq<u8>) -> Seq<u8> {
    s.update(0, s[0] & 248u8).update(31, (s[31] & 127u8) | 64u8)
}

/// `sha2::Sha512::digest`.
/// Claimed: the 64-byte output is the SHA-512 digest of the input.
#[verifier::external_body]
pub fn sha512_digest(data: &[u8]) -> (r: [u8; 64])
    ensures
        r@ == sha512(data@),
{
    sha2::Sha512::digest(data).into()
}

/// `sha2::Sha256::digest`.
/// Claimed: the 32-byte output is the SHA-256 digest of the input.
#[verifier::external_body]
pub fn sha256_digest(data: &[u8]) -> (r: [u8; 32])
    ensures
        r@ == sha256(data@),
{
    sha2::Sha256::digest(data).into()
}

/// `sha3::Sha3_256::digest`.
/// Claimed: the 32-byte output is the SHA3-256 digest of the input.
#[verifier::external_body]
pub fn sha3_256_digest(data: &[u8]) -> (r: [u8; 32])
    ensures
        r@ == sha3_256(data@),
{
    sha3::Sha3_256::digest(data).into()
}

/// `ed25519_dalek::hazmat::ExpandedSecretKey::from_bytes`, then `VerifyingKey::from` and
/// `VerifyingKey::to_bytes`.
/// Claimed, as `from_bytes` shows: only the first 32 bytes make the scalar, clamped with
/// `clamp_integer` and reduced with `Scalar::from_bytes_mod_order`; the public key is the
/// compressed base-point multiple of that scalar.
#[verifier::external_body]
pub fn ed25519_public_from_expanded(bytes: &[u8; 64]) -> (r: [u8; 32])
    ensures
        r@ == ed25519_base_mul(ed25519_clamp(bytes@.subrange(0, 32))),
{
    let expanded = ed25519_dalek::hazmat::ExpandedSecretKey::from_bytes(bytes);
    ed25519_dalek::VerifyingKey::from(&expanded).to_bytes()
}

/// `ed25519_dalek::SigningKey::from_bytes`, then `SigningKey::verifying_key` and
/// `VerifyingKey::to_bytes`.
/// Claimed, as `SigningKey::from_bytes` and `ExpandedSecretKey::from(&SecretKey)` show: the
/// seed is hashed with SHA-512 and the public key is computed from that hash as in
/// `ed25519_public_from_expanded`.
#[verifier::external_body]
pub fn ed25519_public_from_seed(seed: &[u8; 32]) -> (r: [u8; 32])
    ensures
        r@ == ed25519_base_mul(ed25519_clamp(sha512(seed@).subrange(0, 32))),
{
    ed25519_dalek::SigningKey::from_bytes(seed).verifying_key().to_bytes()
}

/// `x25519_dalek::StaticSecret::from([u8; 32])`, then `StaticSecret::as_bytes`.
/// Claimed, as the source shows: the secret keeps the given bytes unchanged, so they come back.
#[verifier::external_body]
pub fn x25519_secret_bytes(bytes: [u8; 32]) -> (r: [u8; 32])
    ensures
        r == bytes,
{
    *x25519_dalek::StaticSecret::from(bytes).as_bytes()
}

} // verus!
