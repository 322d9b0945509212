use crustf::jar::builder::{JarBuilder, MANIFEST_PATH};
use crustf::jar::error::Error;
use crustf::jar::manifest::Manifest;

#[test]
fn manifest_is_first_entry() {
    let jar = JarBuilder::new()
        .main_class("Hello")
        .file("Hello.class", b"CAFEBABE".to_vec())
        .build()
        .unwrap();
    // Local file header at offset 0 is followed by the manifest path.
    // The first 30 bytes are the header struct, then the filename.
    let name_start = 30;
    let name_end = name_start + MANIFEST_PATH.len();
    assert_eq!(&jar[name_start..name_end], MANIFEST_PATH.as_bytes());
}

#[test]
fn main_class_attribute_is_serialised() {
    let jar = JarBuilder::new().main_class("com/foo/Hi").build().unwrap();
    assert!(jar.windows(24).any(|w| w == b"Main-Class: com.foo.Hi\r\n"));
}

#[test]
fn jar_lists_manifest_and_files() {
    let jar = JarBuilder::new()
        .manifest(Manifest::new().attribute("Created-By", "crustf"))
        .manifest_attribute("X-Test", "1")
        .file("a/B.class", vec![1, 2, 3])
        .build()
        .unwrap();
    let eocd = &jar[jar.len() - 22..];
    assert_eq!(u16::from_le_bytes([eocd[10], eocd[11]]), 2);
    assert!(jar.windows(9).any(|w| w == b"a/B.class"));
    assert!(jar.windows(10).any(|w| w == b"X-Test: 1\r"));
}

#[test]
fn bad_file_name_fails_the_build() {
    let r = JarBuilder::new().file("../evil", vec![]).build();
    assert_eq!(r, Err(Error::InvalidName("../evil".to_string())));
}

#[test]
fn default_builder_matches_new() {
    let a = JarBuilder::default().file("a.txt", b"x".to_vec()).build().unwrap();
    let b = JarBuilder::new().file("a.txt", b"x".to_vec()).build().unwrap();
    assert_eq!(a, b);
    assert_eq!(Manifest::default().to_bytes(), Manifest::new().to_bytes());
}

#[test]
fn main_class_replaces_the_manifest() {
    let a = JarBuilder::new()
        .manifest_attribute("Created-By", "x")
        .main_class("a/B")
        .build()
        .unwrap();
    let b = JarBuilder::new().manifest(Manifest::new().main_class("a/B")).build().unwrap();
    assert_eq!(a, b);
    let text = b"Manifest-Version: 1.0\r\nMain-Class: a.B\r\n\r\n";
    assert!(a.windows(text.len()).any(|w| w == text));
}
