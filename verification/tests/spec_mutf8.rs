use crustf::spec::error::Error;
use crustf::spec::mutf8::{decode, encode, encode_into};

#[test]
fn ascii_roundtrip() {
    assert_eq!(encode("hello"), b"hello");
    assert_eq!(decode(b"hello").unwrap(), "hello");
}

#[test]
fn nul_is_two_bytes() {
    assert_eq!(encode("\0"), [0xC0, 0x80]);
    assert_eq!(decode(&[0xC0, 0x80]).unwrap(), "\0");
}

#[test]
fn supplementary_char_uses_surrogates() {
    let bytes = encode("\u{1F980}");
    assert_eq!(bytes.len(), 6);
    assert_eq!(decode(&bytes).unwrap(), "\u{1F980}");
}

#[test]
fn japanese_roundtrip() {
    let s = "こんにちは";
    assert_eq!(decode(&encode(s)).unwrap(), s);
}

#[test]
fn mixed_ascii_and_unicode_roundtrip() {
    let s = "java/lang/String でも\0通る";
    assert_eq!(decode(&encode(s)).unwrap(), s);
}

#[test]
fn bare_nul_byte_errors() {
    let err = decode(&[b'a', 0, b'b']).unwrap_err();
    assert!(matches!(err, Error::InvalidUtf8 { offset: 1, .. }));
}

#[test]
fn surrogate_pair_bytes_are_exact() {
    assert_eq!(encode("\u{1F980}"), [0xED, 0xA0, 0xBE, 0xED, 0xB6, 0x80]);
    assert_eq!(encode("é"), [0xC3, 0xA9]);
    assert_eq!(encode("€"), [0xE2, 0x82, 0xAC]);
}

#[test]
fn encode_into_appends() {
    let mut out = vec![1u8];
    encode_into("a\0", &mut out);
    assert_eq!(out, [1, b'a', 0xC0, 0x80]);
}

#[test]
fn malformed_input_reports_reasons() {
    assert!(matches!(decode(&[0xC3]).unwrap_err(), Error::InvalidUtf8 { offset: 0, reason: "truncated 2-byte group" }));
    assert!(matches!(decode(&[0xC3, 0x41]).unwrap_err(), Error::InvalidUtf8 { offset: 1, reason: "bad continuation byte" }));
    assert!(matches!(decode(&[0xE2, 0x82]).unwrap_err(), Error::InvalidUtf8 { offset: 0, reason: "truncated 3-byte group" }));
    assert!(matches!(decode(&[0xFF]).unwrap_err(), Error::InvalidUtf8 { offset: 0, reason: "invalid leading byte" }));
    assert!(matches!(
        decode(&[0xED, 0xA0, 0xBE, 0x41, 0x41, 0x41]).unwrap_err(),
        Error::InvalidUtf8 { offset: 3, .. }
    ));
    assert!(matches!(
        decode(&[0xED, 0xA0, 0xBE, 0xE2, 0x82, 0xAC]).unwrap_err(),
        Error::InvalidUtf8 { offset: 3, reason: "expected low surrogate" }
    ));
}

#[test]
fn encoded_bytes_never_hold_nul() {
    let bytes = encode("a\0b\u{7FF}\u{FFFF}\u{10000}\u{10FFFF}\0");
    assert!(!bytes.contains(&0u8));
}
