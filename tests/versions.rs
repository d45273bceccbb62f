use std::cmp::Ordering;

use geoengine::version::{compare_versions, compare_worker_version, get_latest_worker_version, validate_version};

#[test]
fn validate_accepts_three_numbers() {
    assert!(validate_version("1.0.0").is_ok());
    assert!(validate_version("10.20.30").is_ok());
}

#[test]
fn validate_rejects_malformed() {
    for v in ["", "1.0", "1.0.0.0", "1..0", ".1.0", "1.0.", "v1.0.0", "1.0.0-beta", "a.b.c"] {
        let e = validate_version(v).unwrap_err();
        assert_eq!(
            e,
            format!("Invalid version '{}'. Version numbers should follow semantic versioning.", v)
        );
    }
}

#[test]
fn compare_orders_by_precedence() {
    assert_eq!(compare_versions("1.1.0", "1.2.0"), Ok(Ordering::Less));
    assert_eq!(compare_versions("1.10.0", "1.9.9"), Ok(Ordering::Greater));
    assert_eq!(compare_versions("2.0.0", "2.0.0"), Ok(Ordering::Equal));
    assert_eq!(compare_versions("0.0.2", "0.0.10"), Ok(Ordering::Less));
}

#[test]
fn compare_rejects_leading_zero_and_bad_text() {
    assert!(compare_versions("01.0.0", "1.0.0").is_err());
    assert!(compare_versions("1.0.0", "1.0").is_err());
    assert!(compare_versions("99999999999999999999.0.0", "1.0.0").is_err());
}

#[test]
fn worker_version_without_build_counts_as_newer() {
    assert_eq!(compare_worker_version("1.0.0", None), Ok(Ordering::Greater));
    assert!(compare_worker_version("01.0.0", None).is_err());
    assert_eq!(compare_worker_version("1.1.0", Some("1.2.0")), Ok(Ordering::Less));
    assert!(compare_worker_version("1.0", None).is_err());
}

#[test]
fn latest_version_among_tags() {
    let tags = vec![
        "geoengine-local/w1:1.2.0".to_string(),
        "geoengine-local/w1:1.10.0".to_string(),
        "geoengine-local/w1:latest".to_string(),
        "geoengine-local/w2:9.0.0".to_string(),
        "geoengine-local-dev/w1:5.0.0".to_string(),
        "geoengine-local/w1:1.9.0".to_string(),
    ];
    assert_eq!(get_latest_worker_version("w1", &tags), Some("1.10.0".to_string()));
    assert_eq!(get_latest_worker_version("w2", &tags), Some("9.0.0".to_string()));
    assert_eq!(get_latest_worker_version("w3", &tags), None);
    assert_eq!(get_latest_worker_version("w1", &Vec::new()), None);
}

#[test]
fn latest_version_counts_prereleases_by_precedence() {
    let tags = vec![
        "geoengine-local/w:1.0.0-rc1".to_string(),
        "geoengine-local/w:0.9.0".to_string(),
        "geoengine-local/w:1.0.0-alpha".to_string(),
        "geoengine-local/w:1.0".to_string(),
    ];
    assert_eq!(get_latest_worker_version("w", &tags), Some("1.0.0-rc1".to_string()));
    let mut more = tags.clone();
    more.push("geoengine-local/w:1.0.0".to_string());
    assert_eq!(get_latest_worker_version("w", &more), Some("1.0.0".to_string()));
    let only_rc = vec!["geoengine-local/w:2.0.0-beta.1+build.5".to_string()];
    assert_eq!(get_latest_worker_version("w", &only_rc), Some("2.0.0-beta.1+build.5".to_string()));
}
