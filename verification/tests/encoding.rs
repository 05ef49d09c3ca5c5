use hs_gen::encoding::{
    ascii_lowercase, base32_address, base32_nopad_encode, base64_encode, decimal_bytes,
    decimal_string,
};

#[test]
fn base32_rfc4648_vectors() {
    assert_eq!(base32_nopad_encode(b""), b"".to_vec());
    assert_eq!(base32_nopad_encode(b"f"), b"MY".to_vec());
    assert_eq!(base32_nopad_encode(b"fo"), b"MZXQ".to_vec());
    assert_eq!(base32_nopad_encode(b"foo"), b"MZXW6".to_vec());
    assert_eq!(base32_nopad_encode(b"foob"), b"MZXW6YQ".to_vec());
    assert_eq!(base32_nopad_encode(b"fooba"), b"MZXW6YTB".to_vec());
    assert_eq!(base32_nopad_encode(b"foobar"), b"MZXW6YTBOI".to_vec());
}

#[test]
fn base64_rfc4648_vectors() {
    assert_eq!(base64_encode(b""), "");
    assert_eq!(base64_encode(b"f"), "Zg==");
    assert_eq!(base64_encode(b"fo"), "Zm8=");
    assert_eq!(base64_encode(b"foo"), "Zm9v");
    assert_eq!(base64_encode(b"foobar"), "Zm9vYmFy");
    assert_eq!(base64_encode(&[0xfb, 0xff]), "+/8=");
}

#[test]
fn lowercase_folds_only_capitals() {
    assert_eq!(ascii_lowercase(b"AZaz27.-@["), b"azaz27.-@[".to_vec());
}

#[test]
fn base32_address_lowercases_and_appends() {
    assert_eq!(base32_address(b"foobar", b".onion"), "mzxw6ytboi.onion");
    assert_eq!(base32_address(b"", b".b32.i2p"), ".b32.i2p");
}

#[test]
fn decimal_numerals() {
    assert_eq!(decimal_bytes(0), b"0".to_vec());
    assert_eq!(decimal_bytes(42), b"42".to_vec());
    assert_eq!(decimal_string(1234567890), "1234567890");
    assert_eq!(decimal_string(u64::MAX), u64::MAX.to_string());
}
