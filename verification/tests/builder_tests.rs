use lbt::archive::{read_archive, write_dir, FsEntry};
use lbt::builder::{
    fuse, pipeline_start, pipeline_step, target_passed, Builder, PipelineState, Stage,
};
use lbt::config::{Build, Config, Framework, Target};
use lbt::error::Error;
use lbt::install::{CacheState, InstallAction};
use lbt::release::{Asset, AssetName, Author, Release};
use lbt::version::Version;

fn file(path: &str, data: &[u8]) -> FsEntry {
    FsEntry { rel_path: String::from(path), is_dir: false, path_ok: true, data: data.to_vec() }
}

fn author() -> Author {
    Author {
        avatar_url: String::new(),
        events_url: String::new(),
        followers_url: String::new(),
        following_url: String::new(),
        gists_url: String::new(),
        gravatar_id: String::new(),
        html_url: String::new(),
        id: 1,
        login: String::from("someone"),
        node_id: String::new(),
        organizations_url: String::new(),
        received_events_url: String::new(),
        repos_url: String::new(),
        site_admin: false,
        starred_url: String::new(),
        subscriptions_url: String::new(),
        ty: String::from("User"),
        url: String::new(),
    }
}

fn asset(file_name: &str) -> Asset {
    Asset {
        browser_download_url: format!("https://example.invalid/{file_name}"),
        content_type: String::from("application/zip"),
        created_at: String::new(),
        download_count: 0,
        id: 7,
        name: AssetName::new(String::from(file_name)),
        node_id: String::new(),
        size: 0,
        state: String::from("uploaded"),
        updated_at: String::new(),
        url: String::new(),
    }
}

fn release(tag: Version, asset_names: &[&str]) -> Release {
    Release {
        id: 1,
        draft: false,
        prerelease: false,
        name: tag.to_version_string(),
        assets: asset_names.iter().map(|n| asset(n)).collect(),
        assets_url: String::new(),
        author: author(),
        created_at: String::new(),
        published_at: String::new(),
        html_url: String::new(),
        tag,
        tarball_url: String::new(),
        target_commitish: String::new(),
        upload_url: String::new(),
        url: String::new(),
        zipball_url: String::new(),
    }
}

fn builder(version: &str, targets: Vec<Target>) -> Builder {
    let config = Config::new(String::from("game"));
    Builder::new(
        Framework::Love,
        Build { version: Version::parse(version).unwrap(), targets },
        &config,
        "/proj",
    )
}

#[test]
fn fuse_appends_without_padding() {
    let exe = vec![1u8, 2, 3];
    let payload = vec![9u8, 8];
    assert_eq!(fuse(&exe, &payload), vec![1, 2, 3, 9, 8]);
    assert_eq!(fuse(&Vec::new(), &payload), vec![9, 8]);
    assert_eq!(fuse(&exe, &Vec::new()), vec![1, 2, 3]);
}

#[test]
fn output_dir_layout() {
    let b = builder("11.5", vec![]);
    assert_eq!(b.output_dir(Target::Win64), "/proj/build/love/windows");
    assert_eq!(b.output_dir(Target::Linux), "/proj/build/love/linux");
}

#[test]
fn copy_files_keeps_dynamic_libraries_only() {
    let b = builder("11.5", vec![]);
    let names = vec![
        String::from("SDL2.dll"),
        String::from("love.exe"),
        String::from("OpenAL32.dll"),
        String::from("license.txt"),
    ];
    let picked = b.copy_files(&names);
    assert_eq!(picked, vec![String::from("SDL2.dll"), String::from("OpenAL32.dll")]);
}

#[test]
fn effective_targets_default_to_host() {
    let b = builder("11.5", vec![]);
    assert_eq!(b.effective_targets(Target::Linux), vec![Target::Linux]);
    let b = builder("11.5", vec![Target::Win64, Target::Macos]);
    assert_eq!(
        b.effective_targets(Target::Linux),
        vec![Target::Win64, Target::Macos]
    );
}

#[test]
fn build_executable_fuses_source_archive_onto_interpreter() {
    let b = builder("11.5", vec![]);
    let tree = vec![file("main.lua", b"print('hi')")];
    let exe = vec![0x4du8, 0x5a, 0, 1, 2, 3];
    let art = b.build_executable(Target::Win64, &tree, &exe).unwrap();
    assert_eq!(art.exe_name, "game.exe");
    assert_eq!(art.payload_name, "game.love");
    // the fusion format: interpreter bytes, then the payload, nothing between
    assert_eq!(&art.fused[..exe.len()], &exe[..]);
    let payload = &art.fused[exe.len()..];
    assert_eq!(payload, &write_dir(&tree, None, true).unwrap()[..]);
    // the appended tail is itself a readable archive holding the source tree
    let entries = read_archive(&payload.to_vec()).unwrap();
    assert_eq!(entries.len(), 1);
    assert_eq!(entries[0].name, "main.lua");
    assert_eq!(entries[0].data, b"print('hi')");
}

#[test]
fn build_executable_unsupported_target() {
    let b = builder("11.5", vec![]);
    let tree = vec![file("main.lua", b"x")];
    let exe = vec![1u8];
    assert!(matches!(
        b.build_executable(Target::Macos, &tree, &exe),
        Err(Error::UnsupportedTarget)
    ));
}

#[test]
fn apply_customizations_only_on_primary_target() {
    let b = builder("11.5", vec![]);
    assert_eq!(b.apply_customizations(Target::Win64), Ok(()));
    assert_eq!(b.apply_customizations(Target::Linux), Err(Error::UnsupportedTarget));
}

#[test]
fn package_excludes_its_own_archive() {
    let b = builder("11.5", vec![]);
    let tree = vec![
        file("game.exe", b"fused"),
        file("SDL2.dll", b"sdl"),
        file("game.zip", b"stale"),
    ];
    let out = b.package(Target::Win64, &tree).unwrap();
    assert_eq!(out.zip_name, "game.zip");
    let entries = read_archive(&out.bytes).unwrap();
    let names: Vec<&str> = entries.iter().map(|e| e.name.as_str()).collect();
    assert_eq!(names, vec!["game.exe", "SDL2.dll"]);
}

#[test]
fn package_unsupported_target() {
    let b = builder("11.5", vec![]);
    let tree = vec![file("a", b"x")];
    assert!(matches!(
        b.package(Target::Android, &tree),
        Err(Error::UnsupportedTarget)
    ));
}

#[test]
fn gate_runs_before_any_network_work() {
    // minimum 11.0.0 for this framework, requested 10.0.0: the version
    // gate fails, so the shell never fetches releases and never touches
    // the cache directories
    let b = builder("10.0.0", vec![]);
    assert_eq!(b.gate(), Err(Error::Version));
    let releases = vec![release(Version::parse("10.0.0").unwrap(), &["love-10.0-win64.zip"])];
    let state = CacheState { archive_dir_exists: false, asset_cached: false, marker: None };
    assert!(matches!(
        b.ensure_framework_installed(&releases, Target::Win64, &state),
        Err(Error::Version)
    ));
}

#[test]
fn ensure_install_reports_missing_release() {
    let b = builder("11.5", vec![]);
    let releases = vec![release(Version::parse("11.4").unwrap(), &["love-11.4-win64.zip"])];
    let state = CacheState { archive_dir_exists: false, asset_cached: false, marker: None };
    assert!(matches!(
        b.ensure_framework_installed(&releases, Target::Win64, &state),
        Err(Error::ReleaseNotFound)
    ));
}

#[test]
fn asset_missing_for_one_target_does_not_affect_another() {
    // the release carries only a win64 asset: an android build fails with
    // the asset error, while the win64 build of the same request still
    // resolves completely
    let b = builder("11.5", vec![Target::Android, Target::Win64]);
    let releases = vec![release(
        Version::parse("11.5").unwrap(),
        &["love-11.5-win64.zip"],
    )];
    let state = CacheState { archive_dir_exists: false, asset_cached: false, marker: None };

    let android = b.ensure_framework_installed(&releases, Target::Android, &state);
    assert!(matches!(android, Err(Error::AssetNotFound)));

    let (asset, plan) = b
        .ensure_framework_installed(&releases, Target::Win64, &state)
        .unwrap();
    assert_eq!(asset.name.name, "love-11.5-win64.zip");
    assert!(plan.download);
    assert_eq!(plan.action, InstallAction::Unpack);
}

#[test]
fn pipeline_happy_path() {
    let mut st = pipeline_start();
    for _ in 0..5 {
        st = pipeline_step(&st, true);
    }
    assert!(target_passed(&st));
    assert!(!st.aborted);
}

#[test]
fn pipeline_records_stage_failure_and_continues() {
    // an install failure is recorded, later stages still run
    let mut st = pipeline_start();
    st = pipeline_step(&st, false); // install fails
    assert_eq!(st.stage, Stage::PrepareOutput);
    st = pipeline_step(&st, true);
    assert_eq!(st.stage, Stage::CopyLibraries);
    st = pipeline_step(&st, true);
    st = pipeline_step(&st, true);
    st = pipeline_step(&st, true);
    assert_eq!(st.stage, Stage::Done);
    assert!(!target_passed(&st));
    assert!(!st.aborted);
}

#[test]
fn pipeline_aborts_when_output_dir_fails() {
    let mut st = pipeline_start();
    st = pipeline_step(&st, true); // install
    st = pipeline_step(&st, false); // output directory
    assert_eq!(
        st,
        PipelineState { stage: Stage::Done, failed: true, aborted: true }
    );
    // stepping a finished pipeline changes nothing
    assert_eq!(pipeline_step(&st, true), st);
}
