use crustf::jar::manifest::Manifest;

#[test]
fn version_is_first() {
    let bytes = Manifest::new().to_bytes();
    assert!(bytes.starts_with(b"Manifest-Version: 1.0\r\n"));
}

#[test]
fn ends_with_blank_line() {
    let bytes = Manifest::new().main_class("HelloWorld").to_bytes();
    assert!(bytes.ends_with(b"\r\n\r\n"));
}

#[test]
fn main_class_converts_slashes_to_dots() {
    let bytes = Manifest::new().main_class("com/example/Hello").to_bytes();
    let s = core::str::from_utf8(&bytes).unwrap();
    assert!(s.contains("Main-Class: com.example.Hello"), "{s}");
}

#[test]
fn repeated_attribute_overwrites() {
    let m = Manifest::new().main_class("A").main_class("B");
    let s = String::from_utf8(m.to_bytes()).unwrap();
    assert!(s.contains("Main-Class: B"));
    assert!(!s.contains("Main-Class: A"));
}

#[test]
fn long_lines_are_folded_at_72_bytes() {
    let long_value: String = "x".repeat(200);
    let bytes = Manifest::new().attribute("X-Long", &long_value).to_bytes();
    for line in bytes.split(|b| *b == b'\n') {
        // strip trailing CR
        let line = line.strip_suffix(b"\r").unwrap_or(line);
        assert!(
            line.len() <= 72,
            "line over 72 bytes: {:?}",
            line
        );
    }
}

#[test]
fn class_path_spaces_entries() {
    let bytes = Manifest::new()
        .class_path(["a.jar", "b.jar", "c.jar"])
        .to_bytes();
    let s = String::from_utf8(bytes).unwrap();
    assert!(s.contains("Class-Path: a.jar b.jar c.jar"));
}

#[test]
fn whole_manifest_bytes() {
    let bytes = Manifest::new().attribute("Created-By", "crustf").to_bytes();
    assert_eq!(bytes, b"Manifest-Version: 1.0\r\nCreated-By: crustf\r\n\r\n");
}

#[test]
fn attribute_names_match_ignoring_ascii_case() {
    let m = Manifest::new().attribute("main-class", "X").main_class("Y");
    let s = String::from_utf8(m.to_bytes()).unwrap();
    assert_eq!(s, "Manifest-Version: 1.0\r\nmain-class: Y\r\n\r\n");
}

#[test]
fn folding_splits_at_72_then_71_bytes() {
    let value = "y".repeat(150);
    let bytes = Manifest::new().attribute("K", &value).to_bytes();
    let s = String::from_utf8(bytes).unwrap();
    let line = format!("K: {value}");
    let expected = format!(
        "Manifest-Version: 1.0\r\n{}\r\n {}\r\n {}\r\n\r\n",
        &line[..72],
        &line[72..143],
        &line[143..]
    );
    assert_eq!(s, expected);
}

#[test]
fn set_attribute_in_place() {
    let mut m = Manifest::default();
    m.set_attribute("A", "1");
    m.set_main_class("p/Q");
    m.set_attribute("a", "2");
    let s = String::from_utf8(m.to_bytes()).unwrap();
    assert_eq!(s, "Manifest-Version: 1.0\r\nA: 2\r\nMain-Class: p.Q\r\n\r\n");
}

#[test]
fn class_path_skips_separator_while_empty() {
    let bytes = Manifest::new().class_path(["", "b", "", "c"]).to_bytes();
    let s = String::from_utf8(bytes).unwrap();
    assert!(s.contains("Class-Path: b  c\r\n"), "{s}");
    let bytes = Manifest::new().class_path(["", "b"]).to_bytes();
    let s = String::from_utf8(bytes).unwrap();
    assert!(s.contains("Class-Path: b\r\n"), "{s}");
}

#[test]
fn unfolding_restores_the_attribute_lines() {
    let long = "x".repeat(200);
    let bytes = Manifest::new().attribute("X-Long", &long).attribute("Main-Class", "A").to_bytes();
    let mut joined = Vec::new();
    let mut i = 0;
    while i < bytes.len() {
        if bytes[i..].starts_with(b"\r\n ") {
            i += 3;
        } else {
            joined.push(bytes[i]);
            i += 1;
        }
    }
    let expected = format!("Manifest-Version: 1.0\r\nX-Long: {long}\r\nMain-Class: A\r\n\r\n");
    assert_eq!(joined, expected.into_bytes());
}
