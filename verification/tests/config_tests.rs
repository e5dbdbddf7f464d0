use lbt::config::{Config, Framework, Target};
use lbt::error::Error;
use lbt::version::Version;

#[test]
fn framework_identities() {
    assert_eq!(Framework::Love.name(), "love");
    assert_eq!(Framework::Lovr.name(), "lovr");
    assert_eq!(Framework::Love.owner(), "love2d");
    assert_eq!(Framework::Lovr.owner(), "bjornbytes");
    assert_eq!(Framework::Love.repo(), "love");
    assert_eq!(Framework::Lovr.repo(), "lovr");
}

#[test]
fn framework_versions() {
    assert_eq!(
        Framework::Love.min_version(),
        Version { major: 11, minor: 0, patch: None }
    );
    assert_eq!(
        Framework::Lovr.min_version(),
        Version { major: 0, minor: 15, patch: Some(0) }
    );
    assert_eq!(
        Framework::Love.latest(),
        Version { major: 11, minor: 5, patch: None }
    );
    assert_eq!(
        Framework::Lovr.latest(),
        Version { major: 0, minor: 17, patch: Some(0) }
    );
}

#[test]
fn framework_from_name() {
    assert_eq!(Framework::from_name("love"), Ok(Framework::Love));
    assert_eq!(Framework::from_name("lovr"), Ok(Framework::Lovr));
    assert_eq!(Framework::from_name("godot"), Err(Error::Parse));
}

#[test]
fn install_paths() {
    let root = "/data/love-build-tools";
    assert_eq!(
        Framework::Love.path(root, Target::Win64),
        "/data/love-build-tools/windows/love"
    );
    assert_eq!(
        Framework::Lovr.path(root, Target::Linux),
        "/data/love-build-tools/linux/lovr"
    );
    assert_eq!(
        Framework::Love.exe(root, Target::Win64),
        "/data/love-build-tools/windows/love/love.exe"
    );
}

#[test]
fn target_names_round_trip() {
    for t in [Target::Win64, Target::Macos, Target::Linux, Target::Ios, Target::Android] {
        assert_eq!(Target::from_os_name(t.name()), Some(t));
    }
    assert_eq!(Target::Win64.name(), "windows");
    assert_eq!(Target::from_os_name("freebsd"), None);
}

#[test]
fn fresh_config() {
    let c = Config::new(String::from("my-game"));
    assert_eq!(c.project.name, "my-game");
    assert!(c.project.icon.is_none());
    assert!(c.build.is_empty());
    assert!(c.target.is_empty());
}
