use lbt::archive::{extract_flatten, extract_preserve, read_archive, write_dir, ArchiveEntry, FsEntry};
use lbt::builder::check_tree;
use lbt::error::Error;

fn file(path: &str, data: &[u8]) -> FsEntry {
    FsEntry { rel_path: String::from(path), is_dir: false, path_ok: true, data: data.to_vec() }
}

fn dir(path: &str) -> FsEntry {
    FsEntry { rel_path: String::from(path), is_dir: true, path_ok: true, data: Vec::new() }
}

#[test]
fn round_trip_preserves_paths_and_bytes() {
    let tree = vec![
        file("main.lua", b"print('hi')"),
        dir("assets"),
        file("assets/logo.bin", &[0u8, 159, 146, 150, 255]),
        file("assets/empty.txt", b""),
    ];
    assert!(check_tree(&tree));
    let bytes = write_dir(&tree, None, true).unwrap();
    let entries = read_archive(&bytes).unwrap();
    let names: Vec<&str> = entries.iter().map(|e| e.name.as_str()).collect();
    assert_eq!(
        names,
        vec!["main.lua", "assets/", "assets/logo.bin", "assets/empty.txt"]
    );
    assert_eq!(entries[0].data, b"print('hi')");
    assert_eq!(entries[1].data, b"");
    assert_eq!(entries[2].data, vec![0u8, 159, 146, 150, 255]);
    assert_eq!(entries[3].data, b"");

    let ops = extract_preserve(&entries);
    let files: Vec<_> = ops.iter().filter(|o| !o.make_dir).collect();
    assert_eq!(files.len(), 3);
    assert_eq!(files[0].path, "main.lua");
    assert_eq!(files[0].data, b"print('hi')");
    assert_eq!(files[1].path, "assets/logo.bin");
    assert_eq!(files[1].data, vec![0u8, 159, 146, 150, 255]);
    assert_eq!(files[2].path, "assets/empty.txt");
    let dirs: Vec<_> = ops.iter().filter(|o| o.make_dir).collect();
    assert_eq!(dirs.len(), 1);
    assert_eq!(dirs[0].path, "assets");
}

#[test]
fn round_trip_permission_bits() {
    let tree = vec![file("tool", b"#!/bin/sh\n")];
    let bytes = write_dir(&tree, None, true).unwrap();
    let entries = read_archive(&bytes).unwrap();
    let mode = entries[0].mode.expect("a unix mode is recorded");
    assert_eq!(mode & 0o777, 0o755);
}

#[test]
fn destination_never_contains_itself() {
    let tree = vec![
        file("game.exe", b"\x4d\x5a stub"),
        file("love.dll", b"lib"),
        file("game.zip", b"stale archive from a previous run"),
    ];
    let bytes = write_dir(&tree, Some("game.zip"), false).unwrap();
    let entries = read_archive(&bytes).unwrap();
    let names: Vec<&str> = entries.iter().map(|e| e.name.as_str()).collect();
    assert_eq!(names, vec!["game.exe", "love.dll"]);
    assert!(!names.contains(&"game.zip"));
}

#[test]
fn non_recursive_keeps_top_level_only() {
    let tree = vec![
        file("a.txt", b"a"),
        dir("sub"),
        file("sub/inner.txt", b"inner"),
    ];
    let bytes = write_dir(&tree, None, false).unwrap();
    let entries = read_archive(&bytes).unwrap();
    let names: Vec<&str> = entries.iter().map(|e| e.name.as_str()).collect();
    assert_eq!(names, vec!["a.txt", "sub/"]);
}

#[test]
fn undecodable_path_aborts_with_path_encoding_error() {
    let bad = FsEntry {
        rel_path: String::from("placeholder"),
        is_dir: false,
        path_ok: false,
        data: vec![1, 2, 3],
    };
    let tree = vec![file("ok.txt", b"fine"), bad];
    assert_eq!(write_dir(&tree, None, true), Err(Error::PathEncoding));
}

#[test]
fn undecodable_path_outside_walk_is_ignored() {
    let bad = FsEntry {
        rel_path: String::from("sub/deep"),
        is_dir: false,
        path_ok: false,
        data: vec![1],
    };
    let tree = vec![file("ok.txt", b"fine"), bad];
    // the bad entry is not top-level, so a non-recursive walk never meets it
    let bytes = write_dir(&tree, None, false).unwrap();
    let entries = read_archive(&bytes).unwrap();
    assert_eq!(entries.len(), 1);
    assert_eq!(entries[0].name, "ok.txt");
}

#[test]
fn garbage_bytes_fail_to_open() {
    let garbage = vec![0u8; 64];
    assert!(matches!(read_archive(&garbage), Err(Error::Filesystem)));
}

#[test]
fn flatten_places_by_final_component() {
    let tree = vec![
        dir("love-11.5-win64"),
        file("love-11.5-win64/love.exe", b"exe"),
        file("love-11.5-win64/SDL2.dll", b"sdl"),
    ];
    let bytes = write_dir(&tree, None, true).unwrap();
    let entries = read_archive(&bytes).unwrap();
    let ops = extract_flatten(&entries);
    let paths: Vec<&str> = ops.iter().map(|o| o.path.as_str()).collect();
    assert_eq!(paths, vec!["love-11.5-win64", "love.exe", "SDL2.dll"]);
    assert!(ops[0].make_dir);
    assert!(!ops[1].make_dir);
    assert_eq!(ops[1].data, b"exe");
    assert_eq!(ops[2].data, b"sdl");
}

#[test]
fn flatten_skips_unsafe_names() {
    let entries = vec![
        ArchiveEntry { name: String::from("../evil.txt"), data: vec![1], mode: None },
        ArchiveEntry { name: String::from("/abs.txt"), data: vec![2], mode: None },
        ArchiveEntry { name: String::from("a/../../b"), data: vec![3], mode: None },
        ArchiveEntry { name: String::from("fine.txt"), data: vec![4], mode: None },
    ];
    let ops = extract_flatten(&entries);
    assert_eq!(ops.len(), 1);
    assert_eq!(ops[0].path, "fine.txt");
    assert_eq!(ops[0].data, vec![4]);
}

#[test]
fn check_tree_rejects_bad_trees() {
    assert!(!check_tree(&vec![file("", b"")]));
    assert!(!check_tree(&vec![file("a/", b"")]));
    assert!(!check_tree(&vec![file("/a", b"")]));
    assert!(!check_tree(&vec![file("../a", b"")]));
    assert!(!check_tree(&vec![file("a", b""), file("a", b"")]));
    let bad_dir = FsEntry {
        rel_path: String::from("d"),
        is_dir: true,
        path_ok: true,
        data: vec![1],
    };
    assert!(!check_tree(&vec![bad_dir]));
    assert!(check_tree(&vec![file("a", b""), dir("b"), file("b/c", b"x")]));
}

#[test]
fn empty_tree_gives_empty_archive() {
    let tree: Vec<FsEntry> = Vec::new();
    let bytes = write_dir(&tree, None, true).unwrap();
    let entries = read_archive(&bytes).unwrap();
    assert!(entries.is_empty());
}
