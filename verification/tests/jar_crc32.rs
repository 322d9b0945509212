use crustf::jar::crc32::{crc32, Hasher};

#[test]
fn empty() {
    assert_eq!(crc32(&[]), 0);
}

#[test]
fn abc() {
    // Known CRC-32 of ASCII "123456789": 0xCBF43926
    assert_eq!(crc32(b"123456789"), 0xCBF4_3926);
}

#[test]
fn chunked_matches_one_shot() {
    let msg: &[u8] = b"the quick brown fox jumps over the lazy dog";
    let mut h = Hasher::new();
    h.update(&msg[..10]);
    h.update(&msg[10..]);
    assert_eq!(crc32(msg), h.finalize());
}

#[test]
fn known_values() {
    assert_eq!(crc32(b"a"), 0xE8B7_BE43);
    assert_eq!(crc32(b"hi"), 0xD893_2AAC);
    assert_eq!(Hasher::default().finalize(), 0);
}

fn bitwise_crc(bytes: &[u8]) -> u32 {
    let mut c: u32 = 0xFFFF_FFFF;
    for &b in bytes {
        c ^= b as u32;
        for _ in 0..8 {
            c = if c & 1 == 1 { 0xEDB8_8320 ^ (c >> 1) } else { c >> 1 };
        }
    }
    !c
}

#[test]
fn table_driven_matches_bitwise() {
    let data: Vec<u8> = (0..=255u8).chain(b"The quick brown fox".iter().copied()).collect();
    assert_eq!(crc32(&data), bitwise_crc(&data));
    let mut h = Hasher::new();
    h.update(&data[..100]);
    h.update(&data[100..]);
    assert_eq!(h.finalize(), bitwise_crc(&data));
    assert_eq!(Hasher::new().finalize(), 0);
}
