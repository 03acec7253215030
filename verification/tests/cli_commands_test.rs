use herb::version;

#[test]
fn test_version_functions() {
    assert_eq!(
        version(),
        "herb rust v0.7.5, libprism v1.6.0, libherb v0.7.5 (Rust FFI)"
    );
}

#[test]
fn test_herb_version_value() {
    assert_eq!(herb::herb_version(), "0.7.5");
}

#[test]
fn test_prism_version_value() {
    assert_eq!(herb::prism_version(), "1.6.0");
}
