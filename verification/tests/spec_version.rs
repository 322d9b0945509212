use crustf::spec::version::{Version, JAVA_17, JAVA_1_1, JAVA_21, JAVA_25, JAVA_8, PREVIEW_MINOR};

#[test]
fn java_se_maps_to_expected_major() {
    assert_eq!(JAVA_8().major, 52);
    assert_eq!(JAVA_17().major, 61);
    assert_eq!(JAVA_21().major, 65);
    assert_eq!(JAVA_25().major, 69);
}

#[test]
fn preview_minor_matches_sentinel() {
    let v = Version::new(65, PREVIEW_MINOR);
    assert!(v.is_preview());
}

#[test]
fn version_formats_as_major_dot_minor() {
    assert_eq!(JAVA_1_1().to_string(), "45.3");
    assert_eq!(Version::java_se(11).to_string(), "55.0");
    assert!(!JAVA_17().is_preview());
}
