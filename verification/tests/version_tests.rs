use lbt::error::Error;
use lbt::version::{gate, Version};

#[test]
fn parse_major_minor() {
    let v = Version::parse("11.5").unwrap();
    assert_eq!(v, Version { major: 11, minor: 5, patch: None });
}

#[test]
fn parse_major_minor_patch() {
    let v = Version::parse("0.17.0").unwrap();
    assert_eq!(v, Version { major: 0, minor: 17, patch: Some(0) });
}

#[test]
fn parse_leading_v() {
    let v = Version::parse("v1.2.3").unwrap();
    assert_eq!(v, Version { major: 1, minor: 2, patch: Some(3) });
}

#[test]
fn parse_non_numeric_fails() {
    assert_eq!(Version::parse("x.y"), Err(Error::Parse));
}

#[test]
fn parse_single_part_fails() {
    assert_eq!(Version::parse("11"), Err(Error::Parse));
    assert_eq!(Version::parse("v11"), Err(Error::Parse));
}

#[test]
fn parse_empty_segment_fails() {
    assert_eq!(Version::parse("11."), Err(Error::Parse));
    assert_eq!(Version::parse(".5"), Err(Error::Parse));
    assert_eq!(Version::parse("1.2."), Err(Error::Parse));
}

#[test]
fn parse_fourth_part_fails() {
    assert_eq!(Version::parse("1.2.3.4"), Err(Error::Parse));
}

#[test]
fn parse_overflow_fails() {
    assert_eq!(Version::parse("99999999999999999999999.0"), Err(Error::Parse));
}

#[test]
fn ordering_chain() {
    let a = Version { major: 11, minor: 0, patch: None };
    let b = Version { major: 11, minor: 5, patch: None };
    let c = Version { major: 11, minor: 5, patch: Some(1) };
    assert!(a.lt(&b));
    assert!(b.lt(&c));
    assert!(a.lt(&c));
    assert!(!b.lt(&a));
    assert!(!c.lt(&b));
}

#[test]
fn absent_patch_differs_from_zero_patch() {
    let none = Version { major: 11, minor: 5, patch: None };
    let zero = Version { major: 11, minor: 5, patch: Some(0) };
    assert_ne!(none, zero);
    assert!(none.lt(&zero));
    assert!(!zero.lt(&none));
}

#[test]
fn display_forms() {
    let v = Version { major: 11, minor: 5, patch: None };
    assert_eq!(v.to_version_string(), "11.5");
    let w = Version { major: 0, minor: 17, patch: Some(0) };
    assert_eq!(w.to_version_string(), "0.17.0");
    let x = Version { major: 120, minor: 0, patch: Some(45) };
    assert_eq!(x.to_version_string(), "120.0.45");
}

#[test]
fn parse_display_round_trip() {
    for s in ["11.5", "0.17.0", "1.2.3", "10.20.30"] {
        let v = Version::parse(s).unwrap();
        assert_eq!(v.to_version_string(), s);
    }
}

#[test]
fn known_versions() {
    assert_eq!(
        Version::min_love_version(),
        Version { major: 11, minor: 0, patch: None }
    );
    assert_eq!(
        Version::min_lovr_version(),
        Version { major: 0, minor: 15, patch: Some(0) }
    );
    assert_eq!(
        Version::latest_love_version(),
        Version { major: 11, minor: 5, patch: None }
    );
    assert_eq!(
        Version::latest_lovr_version(),
        Version { major: 0, minor: 17, patch: Some(0) }
    );
}

#[test]
fn gate_rejects_below_minimum() {
    let build = Version::parse("10.0.0").unwrap();
    let min = Version::parse("11.0.0").unwrap();
    assert_eq!(gate(&build, &min), Err(Error::Version));
}

#[test]
fn gate_accepts_at_or_above_minimum() {
    let min = Version { major: 11, minor: 0, patch: None };
    assert_eq!(gate(&Version { major: 11, minor: 0, patch: None }, &min), Ok(()));
    assert_eq!(gate(&Version { major: 11, minor: 5, patch: None }, &min), Ok(()));
}
