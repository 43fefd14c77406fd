//! Tests of traversal, identity resolution and the listing engine.

use lsr::engine::{run, should_expand, Ls, RawEntry};
use lsr::errors::LsError;
use lsr::ident::{classify_identity_lookup, resolve_group, resolve_user};
use lsr::meta::{get_filedata, RawAttrs};
use lsr::traverse::{filter_entries, is_hidden, select_paths, DirEntry};

fn entry(name: &str) -> DirEntry {
    DirEntry { path: String::from(name), name: String::from(name) }
}

fn attrs_root(mode: u32, size: u64) -> RawAttrs {
    RawAttrs {
        size,
        mode,
        modified_secs: 1_600_000_000,
        hard_link_count: 1,
        uid: 0,
        gid: 0,
    }
}

fn config(long: bool, all: bool, dir_not_recursive: bool) -> Ls {
    Ls { path: String::from("./"), long, all, dir_not_recursive }
}

#[test]
fn hidden_test_reads_first_character() {
    assert!(is_hidden(".b"));
    assert!(is_hidden("..e"));
    assert!(!is_hidden("a"));
    assert!(!is_hidden("c.d"));
    assert!(!is_hidden(""));
}

#[test]
fn hidden_entries_filtered() {
    let entries = vec![entry("a"), entry(".b"), entry("c.d"), entry("..e")];
    let kept = filter_entries(&entries, false);
    let names: Vec<&str> = kept.iter().map(|e| e.name.as_str()).collect();
    assert_eq!(names, ["a", "c.d"]);
}

#[test]
fn hidden_entries_kept_when_asked() {
    let entries = vec![entry("a"), entry(".b"), entry("c.d"), entry("..e")];
    let kept = filter_entries(&entries, true);
    let names: Vec<&str> = kept.iter().map(|e| e.name.as_str()).collect();
    assert_eq!(names, ["a", ".b", "c.d", "..e"]);
}

#[test]
fn expansion_decision() {
    assert!(should_expand(true, false));
    assert!(!should_expand(true, true));
    assert!(!should_expand(false, false));
    assert!(!should_expand(false, true));
}

#[test]
fn non_recursive_directory_is_a_singleton() {
    let children = vec![entry("a"), entry("b")];
    let target = String::from("some_dir");
    let out = select_paths(&target, true, true, true, &children);
    assert_eq!(out, ["some_dir"]);
}

#[test]
fn non_directory_is_a_singleton() {
    let children = vec![entry("a"), entry("b")];
    let target = String::from("a_file");
    let out = select_paths(&target, false, false, true, &children);
    assert_eq!(out, ["a_file"]);
    let out = select_paths(&target, false, true, false, &children);
    assert_eq!(out, ["a_file"]);
}

#[test]
fn expanded_directory_lists_filtered_children() {
    let children = vec![entry("a"), entry(".b"), entry("c.d")];
    let target = String::from("some_dir");
    let out = select_paths(&target, true, false, false, &children);
    assert_eq!(out, ["a", "c.d"]);
    let out = select_paths(&target, true, false, true, &children);
    assert_eq!(out, ["a", ".b", "c.d"]);
}

#[test]
fn lookup_classification() {
    assert_eq!(
        classify_identity_lookup(Ok(Some(String::from("alice")))),
        Ok(String::from("alice"))
    );
    assert_eq!(
        classify_identity_lookup(Ok(None)),
        Err(LsError::IdentityNotFound)
    );
    assert_eq!(
        classify_identity_lookup(Err(nix::errno::Errno::EIO)),
        Err(LsError::IdentityBackendError)
    );
}

#[test]
fn root_ids_resolve() {
    assert!(resolve_user(0).is_ok());
    assert!(resolve_group(0).is_ok());
}

#[test]
fn unknown_id_is_not_found() {
    assert_eq!(resolve_user(3_999_999_999), Err(LsError::IdentityNotFound));
}

#[test]
fn filedata_carries_attributes() {
    let fd = get_filedata(String::from("notes.txt"), &attrs_root(0o100644, 120)).unwrap();
    assert_eq!(fd.path, "notes.txt");
    assert_eq!(fd.size, 120);
    assert_eq!(fd.permissions.owner, 6);
    assert_eq!(fd.permissions.group, 4);
    assert_eq!(fd.permissions.other, 4);
    assert_eq!(fd.hard_link_count, 1);
    assert_eq!(fd.date_modified, 1_600_000_000);
    assert!(!fd.owner.is_empty());
    assert!(!fd.group.is_empty());
}

#[test]
fn listing_a_regular_file_long() {
    // A directory holding notes.txt (mode 644, size 120, one hard link)
    // and a hidden .secrets: without the show-all flag only notes.txt
    // is listed; the long line leads with its permission block and ends
    // with the path.
    let children = vec![entry("notes.txt"), entry(".secrets")];
    let target = String::from("some_dir");
    let selected = select_paths(&target, true, false, false, &children);
    assert_eq!(selected, ["notes.txt"]);
    let entries: Vec<RawEntry> = selected
        .into_iter()
        .map(|p| RawEntry { attrs: attrs_root(0o100644, 120), path: p })
        .collect();
    let lines = run(&config(true, false, false), entries).unwrap();
    assert_eq!(lines.len(), 1);
    assert!(lines[0].starts_with("rw-r--r--    1 "));
    assert!(lines[0].ends_with(" notes.txt"));
}

#[test]
fn listing_shows_hidden_when_asked() {
    let children = vec![entry("notes.txt"), entry(".secrets")];
    let target = String::from("some_dir");
    let selected = select_paths(&target, true, false, true, &children);
    assert_eq!(selected, ["notes.txt", ".secrets"]);
    let entries: Vec<RawEntry> = selected
        .into_iter()
        .map(|p| RawEntry { attrs: attrs_root(0o100644, 120), path: p })
        .collect();
    let lines = run(&config(true, true, false), entries).unwrap();
    assert_eq!(lines.len(), 2);
    assert!(lines[0].ends_with(" notes.txt"));
    assert!(lines[1].ends_with(" .secrets"));
}

#[test]
fn bare_listing_is_repeatable() {
    let make_entries = || {
        vec![
            RawEntry { path: String::from("a"), attrs: attrs_root(0o100644, 1) },
            RawEntry { path: String::from("c.d"), attrs: attrs_root(0o100755, 2) },
        ]
    };
    let cfg = config(false, false, false);
    let first = run(&cfg, make_entries()).unwrap();
    let second = run(&cfg, make_entries()).unwrap();
    assert_eq!(first, second);
    assert_eq!(first, ["a", "c.d"]);
}
