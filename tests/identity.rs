use ace::identity::{file_stem, random_id, resolve_id};
use ace::mapping::{deny_bytes, id_map_bytes};

#[test]
fn file_stem_drops_directories_and_extension() {
    assert_eq!(file_stem("/var/lib/ace/abc123.img"), Some("abc123".to_string()));
    assert_eq!(file_stem("abc123.img"), Some("abc123".to_string()));
    assert_eq!(file_stem("a.tar.gz"), Some("a.tar".to_string()));
    assert_eq!(file_stem("foo."), Some("foo".to_string()));
}

#[test]
fn file_stem_keeps_leading_dot_name() {
    assert_eq!(file_stem(".bashrc"), Some(".bashrc".to_string()));
    assert_eq!(file_stem("/home/u/.bashrc"), Some(".bashrc".to_string()));
}

#[test]
fn file_stem_skips_trailing_separators_and_dots() {
    assert_eq!(file_stem("foo/"), Some("foo".to_string()));
    assert_eq!(file_stem("foo.txt/."), Some("foo".to_string()));
    assert_eq!(file_stem("/a//b.c//./"), Some("b".to_string()));
}

#[test]
fn file_stem_absent() {
    assert_eq!(file_stem(""), None);
    assert_eq!(file_stem("/"), None);
    assert_eq!(file_stem("."), None);
    assert_eq!(file_stem(".."), None);
    assert_eq!(file_stem("foo/.."), None);
}

#[test]
fn random_ids_are_alphanumeric_and_differ() {
    let a = random_id();
    let b = random_id();
    assert_eq!(a.len(), 16);
    assert!(a.chars().all(|c| c.is_ascii_alphanumeric()));
    assert_ne!(a, b);
}

#[test]
fn resolve_id_follows_path() {
    assert_eq!(resolve_id(Some("/x/y/z.img")), Some("z".to_string()));
    assert_eq!(resolve_id(Some("/")), None);
    assert_eq!(resolve_id(None).unwrap().len(), 16);
}

#[test]
fn id_map_lines() {
    assert_eq!(id_map_bytes(1000), b"0 1000 1".to_vec());
    assert_eq!(id_map_bytes(0), b"0 0 1".to_vec());
    assert_eq!(id_map_bytes(7), b"0 7 1".to_vec());
    assert_eq!(id_map_bytes(u32::MAX), b"0 4294967295 1".to_vec());
    assert_eq!(deny_bytes(), b"deny".to_vec());
}
