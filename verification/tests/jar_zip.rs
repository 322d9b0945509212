use crustf::jar::crc32::crc32;
use crustf::jar::error::Error;
use crustf::jar::zip::{ZipWriter, SIG_CENTRAL_DIRECTORY, SIG_END_OF_CENTRAL_DIRECTORY, SIG_LOCAL_FILE_HEADER};

#[test]
fn single_entry_layout() {
    let mut w = ZipWriter::new();
    w.write_stored("a.txt", b"hi").unwrap();
    let bytes = w.finish().unwrap();

    assert_eq!(&bytes[..4], &SIG_LOCAL_FILE_HEADER.to_le_bytes());
    // Search for the central directory signature somewhere in the tail.
    assert!(bytes
        .windows(4)
        .any(|w| w == SIG_CENTRAL_DIRECTORY.to_le_bytes()));
    // EOCD sits at the very end, exactly 22 bytes before len().
    let eocd_start = bytes.len() - 22;
    assert_eq!(
        &bytes[eocd_start..eocd_start + 4],
        &SIG_END_OF_CENTRAL_DIRECTORY.to_le_bytes()
    );
}

#[test]
fn reject_absolute_and_parent_paths() {
    let mut w = ZipWriter::new();
    assert!(matches!(
        w.write_stored("/etc/passwd", b""),
        Err(Error::InvalidName(_))
    ));
    assert!(matches!(
        w.write_stored("../secret", b""),
        Err(Error::InvalidName(_))
    ));
    assert!(matches!(
        w.write_stored("a\\b", b""),
        Err(Error::InvalidName(_))
    ));
}

#[test]
fn multiple_entries_record_correct_offsets() {
    let mut w = ZipWriter::new();
    w.write_stored("a", b"111").unwrap();
    w.write_stored("b", b"2222").unwrap();
    let bytes = w.finish().unwrap();
    // The last 22 bytes are the EOCD; the u16 at offset -14 (from end)
    // gives the total entry count.
    let eocd = &bytes[bytes.len() - 22..];
    let total = u16::from_le_bytes([eocd[10], eocd[11]]);
    assert_eq!(total, 2);
}

#[test]
fn low_level_zipwriter_produces_a_readable_archive() {
    let mut writer = ZipWriter::new();
    writer.write_stored("hello.txt", b"hi").unwrap();
    let bytes = writer.finish().unwrap();
    // EOCD at the tail
    assert_eq!(
        &bytes[bytes.len() - 22..bytes.len() - 18],
        &0x06054b50u32.to_le_bytes()
    );
}

#[test]
fn archive_bytes_are_exact() {
    let mut w = ZipWriter::with_capacity(128);
    w.write_stored("a", b"hi").unwrap();
    let bytes = w.finish().unwrap();
    let crc = crc32(b"hi").to_le_bytes();
    let mut expected: Vec<u8> = Vec::new();
    // local file header
    expected.extend_from_slice(&[0x50, 0x4b, 0x03, 0x04, 20, 0, 0x00, 0x08, 0, 0, 0, 0, 0x21, 0]);
    expected.extend_from_slice(&crc);
    expected.extend_from_slice(&[2, 0, 0, 0, 2, 0, 0, 0, 1, 0, 0, 0, b'a', b'h', b'i']);
    // central directory
    expected.extend_from_slice(&[0x50, 0x4b, 0x01, 0x02, 20, 0, 20, 0, 0x00, 0x08, 0, 0, 0, 0, 0x21, 0]);
    expected.extend_from_slice(&crc);
    expected.extend_from_slice(&[2, 0, 0, 0, 2, 0, 0, 0, 1, 0, 0, 0]);
    expected.extend_from_slice(&[0, 0, 0, 0, 0, 0, 0, 0, 0, 0, 0, 0, 0, 0, b'a']);
    // end of central directory: 1 entry, 47 bytes at offset 33
    expected.extend_from_slice(&[0x50, 0x4b, 0x05, 0x06, 0, 0, 0, 0, 1, 0, 1, 0, 47, 0, 0, 0, 33, 0, 0, 0, 0, 0]);
    assert_eq!(bytes, expected);
}

#[test]
fn refused_names_leave_the_writer_usable() {
    let mut w = ZipWriter::new();
    assert_eq!(w.write_stored("", b"x"), Err(Error::InvalidName(String::new())));
    assert_eq!(w.write_stored("a/../b", b"x"), Err(Error::InvalidName("a/../b".to_string())));
    assert_eq!(w.write_stored("a\0b", b"x"), Err(Error::InvalidName("a\0b".to_string())));
    w.write_stored("a/..b/c..", b"").unwrap();
    let bytes = w.finish().unwrap();
    let eocd = &bytes[bytes.len() - 22..];
    assert_eq!(u16::from_le_bytes([eocd[10], eocd[11]]), 1);
}

#[test]
fn long_names_are_refused() {
    let mut w = ZipWriter::new();
    let name = "n".repeat(70_000);
    assert_eq!(w.write_stored(&name, b""), Err(Error::NameTooLong(70_000)));
    assert_eq!(Error::NameTooLong(70_000).to_string(), "ZIP entry name length 70000 exceeds u16");
    assert_eq!(
        Error::InvalidName("../x".to_string()).to_string(),
        "invalid ZIP entry name \"../x\""
    );
    assert_eq!(Error::ArchiveTooLarge.to_string(), "archive offsets exceed u32 (ZIP64 unsupported)");
}

#[test]
fn empty_archive_is_only_the_end_record() {
    let bytes = ZipWriter::new().finish().unwrap();
    let mut expected = vec![0x50u8, 0x4b, 0x05, 0x06];
    expected.extend_from_slice(&[0u8; 18]);
    assert_eq!(bytes, expected);
}

#[test]
fn layout_after_several_writes() {
    let files: [(&str, &[u8]); 3] = [("a", b"xyz"), ("dir/bb", b""), ("ccc", b"0123456789")];
    let mut w = ZipWriter::new();
    for (n, d) in files.iter() {
        w.write_stored(n, d).unwrap();
    }
    let bytes = w.finish().unwrap();
    let local: usize = files.iter().map(|(n, d)| 30 + n.len() + d.len()).sum();
    let central: usize = files.iter().map(|(n, _)| 46 + n.len()).sum();
    assert_eq!(bytes.len(), local + central + 22);
    let eocd = &bytes[bytes.len() - 22..];
    assert_eq!(u16::from_le_bytes([eocd[10], eocd[11]]), 3);
    assert_eq!(u32::from_le_bytes([eocd[12], eocd[13], eocd[14], eocd[15]]) as usize, central);
    assert_eq!(u32::from_le_bytes([eocd[16], eocd[17], eocd[18], eocd[19]]) as usize, local);
    // Each central record carries the CRC and the offset of its local header.
    let mut at = local;
    let mut offset = 0usize;
    for (n, d) in files.iter() {
        let rec = &bytes[at..at + 46 + n.len()];
        assert_eq!(u32::from_le_bytes([rec[16], rec[17], rec[18], rec[19]]), crc32(d));
        assert_eq!(u32::from_le_bytes([rec[42], rec[43], rec[44], rec[45]]) as usize, offset);
        assert_eq!(&rec[46..], n.as_bytes());
        at += 46 + n.len();
        offset += 30 + n.len() + d.len();
    }
}
