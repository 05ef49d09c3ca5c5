//! Password stretching and per-epoch seed derivation.
use vstd::prelude::*;
use vstd::bytes::{spec_u64_to_le_bytes, u64_to_le_bytes};

verus! {

#[verifier::external_type_specification]
#[verifier::external_body]
pub struct ExArgon2Error(argon2::Error);

#[verifier::external_type_specification]
#[verifier::external_body]
pub struct ExHkdfInvalidLength(hkdf::InvalidLength);

/// Fixed 16-byte salt of the password stretch: `hs-gen-v1` followed by seven zero bytes.
pub const ARGON2_SALT: [u8; 16] = [
    0x68u8, 0x73, 0x2d, 0x67, 0x65, 0x6e, 0x2d, 0x76, 0x31, 0, 0, 0, 0, 0, 0, 0,
];

/// Argon2id memory cost in KiB (19 MiB).
pub const ARGON2_M_COST: u32 = 19456;

/// Argon2id number of passes.
pub const ARGON2_T_COST: u32 = 2;

/// Argon2id degree of parallelism.
pub const ARGON2_P_COST: u32 = 1;

/// The parameter ranges that `argon2::Params::new` accepts.
pub open spec fn argon2_params_valid(m_cost: u32, t_cost: u32, p_cost: u32) -> bool {
    &&& m_cost >= 8
    &&& m_cost >= 8 * p_cost
    &&& t_cost >= 1
    &&& 1 <= p_cost <= 0xFF_FFFF
}

/// The 32-byte Argon2id (version 0x13) output for `password` and `salt` under the given costs,
/// with no secret and no associated data.
pub uninterp spec fn argon2id_v13_output(
    password: Seq<u8>,
    salt: Seq<u8>,
    m_cost: u32,
    t_cost: u32,
    p_cost: u32,
) -> Seq<u8>;

/// Argon2id, version 0x13, into a 32-byte buffer: `argon2::Params::new` (output length 32),
/// `argon2::Argon2::new` and `Argon2::hash_password_into`.
/// Claimed: for parameters that `Params::new` accepts, the call fails exactly when the password
/// is longer than `argon2::MAX_PWD_LEN` or the salt is outside
/// `argon2::MIN_SALT_LEN..=argon2::MAX_SALT_LEN` (the checks of `verify_inputs`), and otherwise
/// the output is the named Argon2id tag of its inputs.
#[verifier::external_body]
fn argon2id_hash(password: &[u8], salt: &[u8], m_cost: u32, t_cost: u32, p_cost: u32) -> (r:
    Result<[u8; 32], argon2::Error>)
    requires
        argon2_params_valid(m_cost, t_cost, p_cost),
    ensures
        r is Ok <==> (password@.len() <= 0xFFFF_FFFF && 8 <= salt@.len() <= 0xFFFF_FFFF),
        r matches Ok(out) ==> out@ == argon2id_v13_output(password@, salt@, m_cost, t_cost, p_cost),
{
    let params = argon2::Params::new(m_cost, t_cost, p_cost, Some(32))?;
    let ctx = argon2::Argon2::new(argon2::Algorithm::Argon2id, argon2::Version::V0x13, params);
    let mut out = [0u8; 32];
    ctx.hash_password_into(password, salt, &mut out)?;
    Ok(out)
}

/// The first `len` bytes of HKDF-SHA512 output keying material for input key material `ikm`,
/// no salt, and context `info` (RFC 5869).
pub uninterp spec fn hkdf_sha512_okm(ikm: Seq<u8>, info: Seq<u8>, len: nat) -> Seq<u8>;

/// HKDF-SHA512 with no salt: `hkdf::Hkdf::<sha2::Sha512>::new(None, ikm)` then `Hkdf::expand`.
/// Claimed: the buffer keeps its length; the call succeeds exactly when the buffer is at most
/// 255 SHA-512 blocks (255 * 64 bytes) long, as `expand_multi_info` checks, and then fills the
/// whole buffer with the named output keying material.
#[verifier::external_body]
fn hkdf_sha512_expand(ikm: &[u8], info: &[u8], okm: &mut Vec<u8>) -> (r: Result<
    (),
    hkdf::InvalidLength,
>)
    ensures
        final(okm)@.len() == old(okm)@.len(),
        r is Ok <==> old(okm)@.len() <= 255 * 64,
        r is Ok ==> final(okm)@ == hkdf_sha512_okm(ikm@, info@, old(okm)@.len()),
{
    hkdf::Hkdf::<sha2::Sha512>::new(None, ikm).expand(info, okm.as_mut_slice())
}

/// Why a key derivation was refused.
#[derive(Clone, Copy, Debug, PartialEq, Eq, Structural)]
pub enum KdfError {
    /// Argon2 refused to hash: the password is longer than 2^32 - 1 bytes. As the stretch has
    /// always reported any Argon2 failure, it is reported as Argon2's `AdTooLong`.
    AdTooLong,
}

/// The message of a derivation error: the text of Argon2's `AdTooLong`.
pub open spec fn spec_kdf_error_message(e: KdfError) -> Seq<char> {
    match e {
        KdfError::AdTooLong => "associated data is too long"@,
    }
}

impl KdfError {
    /// The message printed for this error, as Argon2 words `AdTooLong`.
    pub fn message(&self) -> (r: String)
        ensures
            r@ == spec_kdf_error_message(*self),
    {
        match self {
            KdfError::AdTooLong => "associated data is too long".to_owned(),
        }
    }
}

/// The 32-byte master key stretched from the operator's password.
pub struct MasterKey([u8; 32]);

impl View for MasterKey {
    type V = Seq<u8>;

    closed spec fn view(&self) -> Seq<u8> {
        self.0@
    }
}

impl MasterKey {
    /// The raw key bytes.
    pub fn as_bytes(&self) -> (r: &[u8; 32])
        ensures
            r@ == self@,
    {
        &self.0
    }
}

/// The network a seed is derived for; each network gets its own domain-separation tag.
#[derive(Clone, Copy, Debug, PartialEq, Eq, Structural)]
pub enum NetworkTag {
    Tor,
    I2p,
}

/// The domain-separation tag of a network: `tor-v3` or `i2p-ed25519` in ASCII.
pub open spec fn spec_tag_bytes(network: NetworkTag) -> Seq<u8> {
    match network {
        NetworkTag::Tor => seq![0x74u8, 0x6f, 0x72, 0x2d, 0x76, 0x33],
        NetworkTag::I2p => seq![0x69u8, 0x32, 0x70, 0x2d, 0x65, 0x64, 0x32, 0x35, 0x35, 0x31, 0x39],
    }
}

/// The length of the seed derived for a network.
pub open spec fn spec_seed_len(network: NetworkTag) -> nat {
    match network {
        NetworkTag::Tor => 32,
        NetworkTag::I2p => 64,
    }
}

impl NetworkTag {
    fn tag_bytes(self) -> (r: &'static [u8])
        ensures
            r@ == spec_tag_bytes(self),
    {
        match self {
            NetworkTag::Tor => {
                let t: &'static [u8] = &[0x74u8, 0x6f, 0x72, 0x2d, 0x76, 0x33];
                t
            }
            NetworkTag::I2p => &[0x69u8, 0x32, 0x70, 0x2d, 0x65, 0x64, 0x32, 0x35, 0x35, 0x31, 0x39],
        }
    }

    /// Length in bytes of the seed derived for this network.
    pub fn seed_len(self) -> (r: usize)
        ensures
            r == spec_seed_len(self),
    {
        match self {
            NetworkTag::Tor => 32,
            NetworkTag::I2p => 64,
        }
    }
}


/// The master key that a password stretches to.
pub open spec fn spec_master_key(password: Seq<u8>) -> Seq<u8> {
    argon2id_v13_output(password, ARGON2_SALT@, ARGON2_M_COST, ARGON2_T_COST, ARGON2_P_COST)
}

/// Derive the master key from a password with Argon2id.
pub fn derive_master_key(password: &[u8]) -> (r: Result<MasterKey, KdfError>)
    ensures
        r is Ok <==> password@.len() <= 0xFFFF_FFFF,
        r matches Ok(k) ==> k@ == spec_master_key(password@),
        r matches Err(e) ==> e == KdfError::AdTooLong,
{
    let salt = ARGON2_SALT;
    match argon2id_hash(password, salt.as_slice(), ARGON2_M_COST, ARGON2_T_COST, ARGON2_P_COST) {
        Ok(out) => Ok(MasterKey(out)),
        Err(_) => Err(KdfError::AdTooLong),
    }
}

/// The HKDF context of a seed: the epoch as 8 little-endian bytes, then the network's tag.
pub open spec fn spec_epoch_info(epoch: u64, network: NetworkTag) -> Seq<u8> {
    spec_u64_to_le_bytes(epoch) + spec_tag_bytes(network)
}

/// The seed of a network for an epoch: HKDF-SHA512 of the master key, as long as the network needs.
pub open spec fn spec_epoch_seed(master: Seq<u8>, epoch: u64, network: NetworkTag) -> Seq<u8> {
    hkdf_sha512_okm(master, spec_epoch_info(epoch, network), spec_seed_len(network))
}

/// Derive the per-epoch, per-network seed with HKDF-SHA512.
/// `epoch` is `unix_timestamp_secs / validity_secs`.
pub fn derive_epoch_seed(master: &MasterKey, epoch: u64, network: NetworkTag) -> (r: Vec<u8>)
    ensures
        r@ == spec_epoch_seed(master@, epoch, network),
        r@.len() == spec_seed_len(network),
{
    let len = network.seed_len();
    let mut info = u64_to_le_bytes(epoch);
    info.extend_from_slice(network.tag_bytes());
    assert(info@ =~= spec_epoch_info(epoch, network));
    let mut okm: Vec<u8> = vec![0u8; len];
    let expanded = hkdf_sha512_expand(master.as_bytes().as_slice(), info.as_slice(), &mut okm);
    assert(expanded is Ok);
    okm
}

#[verifier::external_type_specification]
#[verifier::external_body]
pub struct ExSystemTime(std::time::SystemTime);

/// `std::time::SystemTime::now`. Nothing is claimed: the result is the clock's reading.
#[verifier::external_body]
fn system_time_now() -> std::time::SystemTime {
    std::time::SystemTime::now()
}

#[verifier::external_type_specification]
#[verifier::external_body]
pub struct ExSystemTimeError(std::time::SystemTimeError);

/// `SystemTime::duration_since(UNIX_EPOCH)`: an error when the time lies before the Unix epoch.
/// Nothing is claimed of the result: it depends on the clock.
#[verifier::external_body]
fn duration_since_unix_epoch(t: &std::time::SystemTime) -> Result<
    std::time::Duration,
    std::time::SystemTimeError,
> {
    t.duration_since(std::time::UNIX_EPOCH)
}

/// `Duration::as_secs`: the whole seconds of a duration. Nothing is claimed: the durations here
/// come from the clock.
#[verifier::external_body]
fn duration_whole_secs(d: &std::time::Duration) -> u64 {
    d.as_secs()
}

/// The current Unix time in whole seconds, or `None` when the clock reads before the Unix epoch.
pub fn unix_now() -> Option<u64> {
    let t = system_time_now();
    match duration_since_unix_epoch(&t) {
        Ok(d) => Some(duration_whole_secs(&d)),
        Err(_) => None,
    }
}

/// The epoch that a Unix time falls in, for epochs of `validity` seconds.
pub open spec fn spec_epoch_of(now: u64, validity: u64) -> u64 {
    now / validity
}

/// The epoch that the Unix time `now` falls in, for epochs of `validity` seconds.
pub fn epoch_of(now: u64, validity: u64) -> (r: u64)
    requires
        validity > 0,
    ensures
        r == spec_epoch_of(now, validity),
{
    now / validity
}

/// Compute the current epoch for a given validity window; `None` when the system clock reads
/// before the Unix epoch.
pub fn current_epoch(validity: u64) -> (r: Option<u64>)
    requires
        validity > 0,
    ensures
        r matches Some(e) ==> exists|now: u64| e == #[trigger] spec_epoch_of(now, validity),
{
    match unix_now() {
        Some(now) => Some(epoch_of(now, validity)),
        None => None,
    }
}

/// The bytes of an ASCII text.
pub open spec fn ascii_bytes(text: Seq<char>) -> Seq<u8> {
    text.map_values(|c: char| c as u8)
}

/// A Tor seed is the first 32 bytes of HKDF-SHA512 of the master key, with no salt and the
/// context `le64(epoch) || "tor-v3"`.
pub proof fn lemma_tor_seed_context(master: Seq<u8>, epoch: u64)
    ensures
        spec_epoch_seed(master, epoch, NetworkTag::Tor) == hkdf_sha512_okm(
            master,
            spec_u64_to_le_bytes(epoch) + ascii_bytes("tor-v3"@),
            32,
        ),
{
    reveal_strlit("tor-v3");
    assert(ascii_bytes("tor-v3"@) =~= spec_tag_bytes(NetworkTag::Tor));
}

/// An I2P seed is the first 64 bytes of HKDF-SHA512 of the master key, with no salt and the
/// context `le64(epoch) || "i2p-ed25519"`.
pub proof fn lemma_i2p_seed_context(master: Seq<u8>, epoch: u64)
    ensures
        spec_epoch_seed(master, epoch, NetworkTag::I2p) == hkdf_sha512_okm(
            master,
            spec_u64_to_le_bytes(epoch) + ascii_bytes("i2p-ed25519"@),
            64,
        ),
{
    reveal_strlit("i2p-ed25519");
    assert(ascii_bytes("i2p-ed25519"@) =~= spec_tag_bytes(NetworkTag::I2p));
}

/// Domain separation: the HKDF contexts of two (epoch, network) pairs are equal only when the
/// pairs are equal, so every epoch and network draws its seed from a distinct HKDF context.
pub proof fn lemma_epoch_info_injective(e1: u64, n1: NetworkTag, e2: u64, n2: NetworkTag)
    requires
        spec_epoch_info(e1, n1) == spec_epoch_info(e2, n2),
    ensures
        e1 == e2,
        n1 == n2,
{
    vstd::bytes::lemma_auto_spec_u64_to_from_le_bytes();
    let i1 = spec_epoch_info(e1, n1);
    let i2 = spec_epoch_info(e2, n2);
    assert(i1.len() == i2.len());
    assert(n1 == n2);
    assert(i1.subrange(0, 8) =~= spec_u64_to_le_bytes(e1));
    assert(i2.subrange(0, 8) =~= spec_u64_to_le_bytes(e2));
    assert(vstd::bytes::spec_u64_from_le_bytes(spec_u64_to_le_bytes(e1)) == e1);
    assert(vstd::bytes::spec_u64_from_le_bytes(spec_u64_to_le_bytes(e2)) == e2);
}

/// Key derivation is deterministic: the same password, epoch and network always give the same
/// master key and the same seed.
pub proof fn lemma_derivation_is_deterministic(
    password1: Seq<u8>,
    password2: Seq<u8>,
    epoch: u64,
    network: NetworkTag,
)
    requires
        password1 == password2,
    ensures
        spec_master_key(password1) == spec_master_key(password2),
        spec_epoch_seed(spec_master_key(password1), epoch, network) == spec_epoch_seed(
            spec_master_key(password2),
            epoch,
            network,
        ),
{
}

} // verus!
