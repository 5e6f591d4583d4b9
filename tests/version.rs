use autopkg::version::{is_newer, normalize_version};

#[test]
fn normalize_strips_leading_v() {
    assert_eq!(normalize_version("v1.2.3"), "1.2.3");
}

#[test]
fn normalize_keeps_tag_without_digit() {
    assert_eq!(normalize_version("nightly"), "nightly");
}

#[test]
fn normalize_takes_run_from_first_digit() {
    assert_eq!(normalize_version("release-2.0-rc1 (final)"), "2.0-rc1");
    assert_eq!(normalize_version("1.2.3"), "1.2.3");
    assert_eq!(normalize_version("V10.4+build.7/x"), "10.4+build.7");
}

#[test]
fn normalize_empty_tag() {
    assert_eq!(normalize_version(""), "");
}

#[test]
fn newer_minor_release() {
    assert!(is_newer("1.2.3", "1.3.0"));
}

#[test]
fn older_release_is_not_newer() {
    assert!(!is_newer("1.3.0", "1.2.3"));
}

#[test]
fn zero_padding_makes_equal() {
    assert!(!is_newer("1.2", "1.2.0"));
    assert!(!is_newer("1.2.0", "1.2"));
}

#[test]
fn equal_versions_are_not_newer() {
    assert!(!is_newer("1.2.3", "1.2.3"));
}

#[test]
fn padded_component_decides() {
    assert!(is_newer("1.2", "1.2.1"));
    assert!(!is_newer("1.2.1", "1.2"));
}

#[test]
fn numeric_not_lexicographic() {
    assert!(is_newer("1.9.0", "1.10.0"));
}

#[test]
fn non_numeric_segments_are_dropped() {
    assert!(!is_newer("1.0.0-rc1", "1.0.0"));
    assert!(!is_newer("1.0.0", "1.0.0-rc1"));
    assert!(is_newer("1.x.2", "1.3"));
}

#[test]
fn plus_sign_segment_reads_as_number() {
    assert!(is_newer("1.1", "1.+2"));
}

#[test]
fn oversized_segment_is_dropped() {
    assert!(!is_newer("1", "99999999999999999999.1"));
    assert!(is_newer("0.0", "18446744073709551615"));
}

#[test]
fn not_installed_version_is_older_than_release() {
    assert!(is_newer(&normalize_version("0.0.0"), &normalize_version("v0.0.1")));
    assert!(is_newer(&normalize_version("0.0.0"), &normalize_version("v3")));
}
