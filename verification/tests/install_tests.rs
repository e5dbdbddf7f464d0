use lbt::install::{cache_paths, plan_install, CacheState, InstallAction};
use lbt::version::Version;

fn v(s: &str) -> Version {
    Version::parse(s).unwrap()
}

#[test]
fn fresh_cache_downloads_and_unpacks() {
    let state = CacheState { archive_dir_exists: false, asset_cached: false, marker: None };
    let plan = plan_install("love-11.5-win64.zip", &state, &v("11.5"));
    assert!(plan.create_archive_dir);
    assert!(plan.download);
    assert_eq!(plan.action, InstallAction::Unpack);
    assert!(plan.write_marker);
}

#[test]
fn install_twice_downloads_once_and_keeps_marker() {
    // the idempotent short-circuit: after one run, a second run with the
    // unchanged requested version does nothing at all
    let requested = v("11.5");
    let state = CacheState { archive_dir_exists: false, asset_cached: false, marker: None };
    let plan1 = plan_install("love-11.5-win64.zip", &state, &requested);
    assert!(plan1.download);
    let after = CacheState {
        archive_dir_exists: true,
        asset_cached: true,
        marker: Some(requested),
    };
    let plan2 = plan_install("love-11.5-win64.zip", &after, &requested);
    assert!(!plan2.download);
    assert!(!plan2.create_archive_dir);
    assert!(!plan2.write_marker);
    assert_eq!(plan2.action, InstallAction::NoAction);
}

#[test]
fn version_change_rebuilds() {
    let state = CacheState {
        archive_dir_exists: true,
        asset_cached: false,
        marker: Some(v("11.4")),
    };
    let plan = plan_install("love-11.5-win64.zip", &state, &v("11.5"));
    assert!(plan.download);
    assert_eq!(plan.action, InstallAction::Unpack);
    assert!(plan.write_marker);
}

#[test]
fn cached_asset_with_stale_marker_reextracts_without_download() {
    let state = CacheState {
        archive_dir_exists: true,
        asset_cached: true,
        marker: Some(v("11.4")),
    };
    let plan = plan_install("love-11.5-win64.zip", &state, &v("11.5"));
    assert!(!plan.download);
    assert_eq!(plan.action, InstallAction::Unpack);
    assert!(plan.write_marker);
}

#[test]
fn single_file_asset_is_renamed_not_unpacked() {
    let state = CacheState { archive_dir_exists: true, asset_cached: false, marker: None };
    let plan = plan_install("lovr-v0.17.0-x86_64.AppImage", &state, &v("0.17.0"));
    assert_eq!(plan.action, InstallAction::RenameSingle);
}

#[test]
fn unknown_asset_kind_has_no_action() {
    let state = CacheState { archive_dir_exists: true, asset_cached: false, marker: None };
    let plan = plan_install("love-11.5-win64.tar", &state, &v("11.5"));
    assert_eq!(plan.action, InstallAction::NoAction);
    assert!(plan.write_marker);
}

#[test]
fn marker_distinguishes_absent_patch() {
    let state = CacheState {
        archive_dir_exists: true,
        asset_cached: true,
        marker: Some(v("11.5")),
    };
    // "11.5.0" is not the marked "11.5": the cache must be rebuilt
    let plan = plan_install("love-11.5-win64.zip", &state, &v("11.5.0"));
    assert_eq!(plan.action, InstallAction::Unpack);
    assert!(plan.write_marker);
}

#[test]
fn cache_layout() {
    let p = cache_paths("/home/u/.local/share/love-build-tools", "windows", "love", "love-11.5-win64.zip");
    assert_eq!(p.base, "/home/u/.local/share/love-build-tools/windows");
    assert_eq!(p.archive_dir, "/home/u/.local/share/love-build-tools/windows/.archive");
    assert_eq!(
        p.version_file,
        "/home/u/.local/share/love-build-tools/windows/.love-version"
    );
    assert_eq!(
        p.asset_file,
        "/home/u/.local/share/love-build-tools/windows/.archive/love-11.5-win64.zip"
    );
    assert_eq!(p.tree_dir, "/home/u/.local/share/love-build-tools/windows/love");
}
