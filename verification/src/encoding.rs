//! Text encodings used for addresses and reports: RFC 4648 base32 and base64, ASCII case
//! folding, and decimal numerals.
use vstd::prelude::*;
use vstd::arithmetic::power2::pow2;

verus! {

/// Bit `k` of `data` read as a big-endian bit string; bits past the end are zero.
pub open spec fn bit_at(data: Seq<u8>, k: int) -> int {
    if 0 <= k < 8 * data.len() {
        ((data[k / 8] as int) / (pow2((7 - k % 8) as nat) as int)) % 2
    } else {
        0
    }
}

/// The `i`-th 5-bit group of `data`, zero-padded at the end.
pub open spec fn quintet(data: Seq<u8>, i: int) -> int {
    16 * bit_at(data, 5 * i) + 8 * bit_at(data, 5 * i + 1) + 4 * bit_at(data, 5 * i + 2) + 2
        * bit_at(data, 5 * i + 3) + bit_at(data, 5 * i + 4)
}

/// The `i`-th 6-bit group of `data`, zero-padded at the end.
pub open spec fn sextet(data: Seq<u8>, i: int) -> int {
    32 * bit_at(data, 6 * i) + 16 * bit_at(data, 6 * i + 1) + 8 * bit_at(data, 6 * i + 2) + 4
        * bit_at(data, 6 * i + 3) + 2 * bit_at(data, 6 * i + 4) + bit_at(data, 6 * i + 5)
}

/// The RFC 4648 base32 alphabet `A`..`Z`, `2`..`7`, as ASCII codes.
pub open spec fn base32_symbol(v: int) -> u8 {
    if v < 26 {
        (65 + v) as u8
    } else {
        (24 + v) as u8
    }
}

/// The RFC 4648 base64 alphabet `A`..`Z`, `a`..`z`, `0`..`9`, `+`, `/`, as ASCII codes.
pub open spec fn base64_symbol(v: int) -> u8 {
    if v < 26 {
        (65 + v) as u8
    } else if v < 52 {
        (71 + v) as u8
    } else if v < 62 {
        (v - 4) as u8
    } else if v == 62 {
        43u8
    } else {
        47u8
    }
}

/// RFC 4648 base32 of `data` without padding, as ASCII codes: one symbol per 5 bits,
/// the last group zero-padded.
pub open spec fn spec_base32_nopad(data: Seq<u8>) -> Seq<u8> {
    Seq::new(((8 * data.len() + 4) / 5) as nat, |i: int| base32_symbol(quintet(data, i)))
}

/// RFC 4648 base64 of `data` with `=` padding, as ASCII codes.
pub open spec fn spec_base64(data: Seq<u8>) -> Seq<u8> {
    Seq::new(
        (4 * ((data.len() + 2) / 3)) as nat,
        |i: int|
            if i < (8 * data.len() + 5) / 6 {
                base64_symbol(sextet(data, i))
            } else {
                61u8
            },
    )
}

/// The characters whose codes are the given ASCII bytes.
pub open spec fn ascii_chars(bytes: Seq<u8>) -> Seq<char> {
    bytes.map_values(|b: u8| b as char)
}

/// Every byte is an ASCII code.
pub open spec fn is_ascii_bytes(bytes: Seq<u8>) -> bool {
    forall|i: int| 0 <= i < bytes.len() ==> bytes[i] < 128
}

/// ASCII lower case of one byte: `A`..`Z` become `a`..`z`, other bytes are kept.
pub open spec fn ascii_lower(b: u8) -> u8 {
    if 65 <= b <= 90 {
        (b + 32) as u8
    } else {
        b
    }
}

/// ASCII lower case of a byte string.
pub open spec fn spec_ascii_lowercase(bytes: Seq<u8>) -> Seq<u8> {
    bytes.map_values(|b: u8| ascii_lower(b))
}

/// The decimal numeral of `n` in ASCII digits, without leading zeros.
pub open spec fn spec_decimal(n: nat) -> Seq<u8>
    decreases n,
{
    if n < 10 {
        seq![(48 + n) as u8]
    } else {
        spec_decimal(n / 10).push((48 + n % 10) as u8)
    }
}

/// `data_encoding::BASE32_NOPAD.encode`, as the bytes of the returned `String`.
/// Claimed: the output is RFC 4648 base32 of the input with no padding.
#[verifier::external_body]
pub fn base32_nopad_encode(data: &[u8]) -> (r: Vec<u8>)
    ensures
        r@ == spec_base32_nopad(data@),
{
    data_encoding::BASE32_NOPAD.encode(data).into_bytes()
}

/// `data_encoding::BASE64.encode`.
/// Claimed: the output is RFC 4648 base64 of the input with `=` padding.
#[verifier::external_body]
pub fn base64_encode(data: &[u8]) -> (r: String)
    ensures
        r@ == ascii_chars(spec_base64(data@)),
{
    data_encoding::BASE64.encode(data)
}

#[verifier::external_type_specification]
#[verifier::external_body]
pub struct ExFromUtf8Error(std::string::FromUtf8Error);

/// `String::from_utf8` on ASCII bytes.
/// Claimed: ASCII is valid UTF-8, so the call succeeds, and each byte becomes the character
/// with that code.
#[verifier::external_body]
pub fn string_from_ascii(bytes: Vec<u8>) -> (r: Result<String, std::string::FromUtf8Error>)
    requires
        is_ascii_bytes(bytes@),
    ensures
        r is Ok,
        r matches Ok(s) ==> s@ == ascii_chars(bytes@),
{
    String::from_utf8(bytes)
}

/// The text of ASCII bytes.
fn ascii_text(bytes: Vec<u8>) -> (r: String)
    requires
        is_ascii_bytes(bytes@),
    ensures
        r@ == ascii_chars(bytes@),
{
    match string_from_ascii(bytes) {
        Ok(s) => s,
        Err(_) => {
            proof {
                assert(false);
            }
            String::new()
        },
    }
}

/// ASCII lower case of a byte string.
pub fn ascii_lowercase(bytes: &[u8]) -> (r: Vec<u8>)
    ensures
        r@ == spec_ascii_lowercase(bytes@),
{
    let mut out: Vec<u8> = Vec::with_capacity(bytes.len());
    for i in 0..bytes.len()
        invariant
            out@ =~= spec_ascii_lowercase(bytes@.subrange(0, i as int)),
    {
        let b = bytes[i];
        let l = if 65 <= b && b <= 90 {
            b + 32
        } else {
            b
        };
        out.push(l);
        assert(spec_ascii_lowercase(bytes@.subrange(0, i + 1)) =~= spec_ascii_lowercase(
            bytes@.subrange(0, i as int),
        ).push(l));
    }
    assert(bytes@.subrange(0, bytes@.len() as int) =~= bytes@);
    out
}

/// The decimal numeral of `n` in ASCII digits.
pub fn decimal_bytes(n: u64) -> (r: Vec<u8>)
    ensures
        r@ == spec_decimal(n as nat),
        is_ascii_bytes(r@),
    decreases n,
{
    if n < 10 {
        let mut v: Vec<u8> = Vec::new();
        v.push(48 + n as u8);
        assert(v@ =~= seq![(48 + n) as u8]);
        v
    } else {
        let mut v = decimal_bytes(n / 10);
        v.push(48 + (n % 10) as u8);
        v
    }
}

/// The decimal numeral of `n`, as `u64::to_string` writes it.
pub fn decimal_string(n: u64) -> (r: String)
    ensures
        r@ == ascii_chars(spec_decimal(n as nat)),
{
    ascii_text(decimal_bytes(n))
}

/// Each bit of `data` is 0 or 1.
proof fn lemma_bit_is_binary(data: Seq<u8>, k: int)
    ensures
        0 <= bit_at(data, k) <= 1,
{
}

/// The five bits of a 5-bit group are each 0 or 1.
proof fn lemma_quintet_bits(data: Seq<u8>, i: int)
    ensures
        forall|j: int| 0 <= j < 5 ==> 0 <= #[trigger] bit_at(data, 5 * i + j) <= 1,
{
    assert forall|j: int| 0 <= j < 5 implies 0 <= #[trigger] bit_at(data, 5 * i + j) <= 1 by {
        lemma_bit_is_binary(data, 5 * i + j);
    }
}

/// A byte is the sum of its eight bits, most significant first.
proof fn lemma_byte_from_bits(data: Seq<u8>, m: int)
    requires
        0 <= m < data.len(),
    ensures
        data[m] as int == 128 * bit_at(data, 8 * m) + 64 * bit_at(data, 8 * m + 1) + 32 * bit_at(
            data,
            8 * m + 2,
        ) + 16 * bit_at(data, 8 * m + 3) + 8 * bit_at(data, 8 * m + 4) + 4 * bit_at(
            data,
            8 * m + 5,
        ) + 2 * bit_at(data, 8 * m + 6) + bit_at(data, 8 * m + 7),
{
    vstd::arithmetic::power2::lemma2_to64();
    let x = data[m] as int;
    assert(bit_at(data, 8 * m) == (x / 128) % 2);
    assert(bit_at(data, 8 * m + 1) == (x / 64) % 2);
    assert(bit_at(data, 8 * m + 2) == (x / 32) % 2);
    assert(bit_at(data, 8 * m + 3) == (x / 16) % 2);
    assert(bit_at(data, 8 * m + 4) == (x / 8) % 2);
    assert(bit_at(data, 8 * m + 5) == (x / 4) % 2);
    assert(bit_at(data, 8 * m + 6) == (x / 2) % 2);
    assert(bit_at(data, 8 * m + 7) == (x / 1) % 2);
    assert(0 <= x < 256);
    assert(x == 128 * ((x / 128) % 2) + 64 * ((x / 64) % 2) + 32 * ((x / 32) % 2) + 16 * ((x / 16)
        % 2) + 8 * ((x / 8) % 2) + 4 * ((x / 4) % 2) + 2 * ((x / 2) % 2) + (x / 1) % 2)
        by (nonlinear_arith)
        requires
            0 <= x < 256,
    ;
}

/// Base32 without padding is injective: equal encodings come from equal byte strings.
pub proof fn lemma_base32_nopad_injective(a: Seq<u8>, b: Seq<u8>)
    requires
        spec_base32_nopad(a) == spec_base32_nopad(b),
    ensures
        a == b,
{
    let ea = spec_base32_nopad(a);
    let eb = spec_base32_nopad(b);
    assert(ea.len() == eb.len());
    assert(a.len() == b.len());
    let n = a.len() as int;
    assert forall|k: int| 0 <= k < 8 * n implies bit_at(a, k) == bit_at(b, k) by {
        let i = k / 5;
        let j = k % 5;
        assert(0 <= i < ea.len());
        assert(ea[i] == eb[i]);
        lemma_quintet_bits(a, i);
        lemma_quintet_bits(b, i);
        assert(quintet(a, i) == quintet(b, i));
        assert(k == 5 * i + j);
    }
    assert forall|m: int| 0 <= m < n implies a[m] == b[m] by {
        lemma_byte_from_bits(a, m);
        lemma_byte_from_bits(b, m);
        assert(bit_at(a, 8 * m) == bit_at(b, 8 * m));
        assert(bit_at(a, 8 * m + 1) == bit_at(b, 8 * m + 1));
        assert(bit_at(a, 8 * m + 2) == bit_at(b, 8 * m + 2));
        assert(bit_at(a, 8 * m + 3) == bit_at(b, 8 * m + 3));
        assert(bit_at(a, 8 * m + 4) == bit_at(b, 8 * m + 4));
        assert(bit_at(a, 8 * m + 5) == bit_at(b, 8 * m + 5));
        assert(bit_at(a, 8 * m + 6) == bit_at(b, 8 * m + 6));
        assert(bit_at(a, 8 * m + 7) == bit_at(b, 8 * m + 7));
    }
    assert(a =~= b);
}

/// A byte of lower-case RFC 4648 base32: `a`..`z` or `2`..`7`.
pub open spec fn is_lower_base32_symbol(b: u8) -> bool {
    (97 <= b <= 122) || (50 <= b <= 55)
}

/// Every 5-bit group is below 32, so base32 output is made of alphabet symbols, and its lower
/// case of lower-case symbols.
pub proof fn lemma_base32_lower_symbols(data: Seq<u8>)
    ensures
        forall|i: int|
            0 <= i < spec_base32_nopad(data).len() ==> is_lower_base32_symbol(
                #[trigger] spec_ascii_lowercase(spec_base32_nopad(data))[i],
            ),
{
    assert forall|i: int| 0 <= i < spec_base32_nopad(data).len() implies is_lower_base32_symbol(
        #[trigger] spec_ascii_lowercase(spec_base32_nopad(data))[i],
    ) by {
        let q = quintet(data, i);
        assert(0 <= bit_at(data, 5 * i) <= 1);
        assert(0 <= bit_at(data, 5 * i + 1) <= 1);
        assert(0 <= bit_at(data, 5 * i + 2) <= 1);
        assert(0 <= bit_at(data, 5 * i + 3) <= 1);
        assert(0 <= bit_at(data, 5 * i + 4) <= 1);
        assert(0 <= q < 32);
    }
}

/// Lower-case base32 of `data` (no padding) followed by `suffix`.
pub open spec fn spec_base32_address(data: Seq<u8>, suffix: Seq<u8>) -> Seq<u8> {
    spec_ascii_lowercase(spec_base32_nopad(data)) + suffix
}

/// Lower-case base32 followed by a fixed suffix is injective: equal addresses come from equal
/// byte strings.
pub proof fn lemma_base32_address_injective(a: Seq<u8>, b: Seq<u8>, suffix: Seq<u8>)
    requires
        spec_base32_address(a, suffix) == spec_base32_address(b, suffix),
    ensures
        a == b,
{
    let ea = spec_base32_nopad(a);
    let eb = spec_base32_nopad(b);
    let la = spec_ascii_lowercase(ea);
    let lb = spec_ascii_lowercase(eb);
    assert(la.len() == lb.len()) by {
        assert(spec_base32_address(a, suffix).len() == la.len() + suffix.len());
        assert(spec_base32_address(b, suffix).len() == lb.len() + suffix.len());
    }
    assert forall|i: int| 0 <= i < ea.len() implies ea[i] == eb[i] by {
        assert(la[i] == spec_base32_address(a, suffix)[i]);
        assert(lb[i] == spec_base32_address(b, suffix)[i]);
        lemma_quintet_bits(a, i);
        lemma_quintet_bits(b, i);
    }
    assert(ea =~= eb);
    lemma_base32_nopad_injective(a, b);
}

/// Lower-case base32 of `data` (no padding) followed by the ASCII `suffix`, as text: the shape
/// of `.onion` and `.b32.i2p` host names.
pub fn base32_address(data: &[u8], suffix: &[u8]) -> (r: String)
    requires
        is_ascii_bytes(suffix@),
    ensures
        r@ == ascii_chars(spec_base32_address(data@, suffix@)),
        r@.len() == (8 * data@.len() + 4) / 5 + suffix@.len(),
{
    let encoded = base32_nopad_encode(data);
    let mut text = ascii_lowercase(encoded.as_slice());
    text.extend_from_slice(suffix);
    proof {
        lemma_base32_lower_symbols(data@);
        assert(text@ =~= spec_base32_address(data@, suffix@));
        assert forall|i: int| 0 <= i < text@.len() implies text@[i] < 128 by {
            if i < encoded@.len() {
                assert(is_lower_base32_symbol(
                    spec_ascii_lowercase(spec_base32_nopad(data@))[i],
                ));
            }
        }
    }
    ascii_text(text)
}

} // verus!
