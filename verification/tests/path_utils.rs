use file_fusion::errors::Error;
use file_fusion::query::path::StoragePath;
use file_fusion::query::path_utils::dedup_paths;

fn path(text: &str) -> StoragePath {
    StoragePath::parse(text).unwrap()
}

fn holds(paths: &Vec<StoragePath>, text: &str) -> bool {
    let wanted = path(text);
    paths.iter().any(|p| p.same_as(&wanted))
}

#[test]
fn test_filter_subfiles() {
    // descending
    let paths = vec![path("dir1/subdir1"), path("dir1/subdir1/file1")];
    let deduped_paths = dedup_paths(&paths);

    assert_eq!(deduped_paths.len(), 1);
    assert_eq!(holds(&deduped_paths, "dir1/subdir1"), true);

    // ascending
    let paths = vec![path("dir1/subdir1/file1"), path("dir1/subdir1")];
    let deduped_paths = dedup_paths(&paths);

    assert_eq!(deduped_paths.len(), 1);
    assert_eq!(holds(&deduped_paths, "dir1/subdir1"), true);
}

#[test]
fn test_filter_deep_subfiles() {
    // descending
    let paths = vec![
        path("dir1/subdir1"),
        path("dir1/subdir1/subdir2/subdir3/file1"),
    ];
    let deduped_paths = dedup_paths(&paths);

    assert_eq!(deduped_paths.len(), 1);
    assert_eq!(holds(&deduped_paths, "dir1/subdir1"), true);

    // ascending
    let paths = vec![
        path("dir1/subdir1/subdir2/subdir3/file1"),
        path("dir1/subdir1"),
    ];
    let deduped_paths = dedup_paths(&paths);

    assert_eq!(deduped_paths.len(), 1);
    assert_eq!(holds(&deduped_paths, "dir1/subdir1"), true);
}

#[test]
fn test_includes_siblings() {
    let paths = vec![
        path("dir1/subdir1"),
        path("dir1/subdir2"),
        path("dir2/subdir3"),
    ];

    let deduped_paths = dedup_paths(&paths);

    assert_eq!(deduped_paths.len(), 3);
    assert_eq!(holds(&deduped_paths, "dir1/subdir1"), true);
    assert_eq!(holds(&deduped_paths, "dir1/subdir2"), true);
    assert_eq!(holds(&deduped_paths, "dir1/subdir2"), true);
}

#[test]
fn trailing_delimiter_is_ignored() {
    let paths = vec![path("dir1/subdir1"), path("dir1/subdir1/")];

    let deduped_paths = dedup_paths(&paths);
    assert_eq!(deduped_paths.len(), 1);
    assert_eq!(holds(&deduped_paths, "dir1/subdir1"), true);
}

#[test]
fn leading_delimiter_is_ignored() {
    let paths = vec![path("/dir1/subdir1"), path("dir1/subdir1")];

    let deduped_paths = dedup_paths(&paths);
    assert_eq!(deduped_paths.len(), 1);
    assert_eq!(holds(&deduped_paths, "dir1/subdir1"), true);
}

#[test]
fn root_contains_all() {
    let paths = vec![
        path("/"),
        path("dir1/subdir1"),
        path("dir2/subdir2/file1"),
        path("dir3"),
    ];

    let deduped_paths = dedup_paths(&paths);
    assert_eq!(deduped_paths.len(), 1);
    assert_eq!(holds(&deduped_paths, "/"), true);
}

#[test]
fn descendant_is_dropped_in_either_order() {
    for (first, second) in [("a/b", "a/b/c/d"), ("a/b/c/d", "a/b")] {
        let kept = dedup_paths(&vec![path(first), path(second)]);
        assert_eq!(kept.len(), 1);
        assert_eq!(kept[0].as_str(), "a/b");
    }
}

#[test]
fn siblings_are_all_kept() {
    let kept = dedup_paths(&vec![path("dir1/a"), path("dir1/b"), path("dir2/c")]);
    assert_eq!(kept.len(), 3);
    assert!(holds(&kept, "dir1/a"));
    assert!(holds(&kept, "dir1/b"));
    assert!(holds(&kept, "dir2/c"));
}

#[test]
fn root_absorbs_every_other_path() {
    let kept = dedup_paths(&vec![path("a/b"), path("/"), path("c")]);
    assert_eq!(kept.len(), 1);
    assert_eq!(kept[0].as_str(), "");
}

#[test]
fn outer_delimiters_are_normalized() {
    let kept = dedup_paths(&vec![path("dir1/a"), path("dir1/a/")]);
    assert_eq!(kept.len(), 1);
    assert_eq!(kept[0].as_str(), "dir1/a");
    let kept = dedup_paths(&vec![path("/dir1/a"), path("dir1/a")]);
    assert_eq!(kept.len(), 1);
    assert_eq!(kept[0].as_str(), "dir1/a");
}

#[test]
fn prefixes_respect_delimiters() {
    let kept = dedup_paths(&vec![path("dir1/subdir2"), path("dir1/subdir22")]);
    assert_eq!(kept.len(), 2);
    assert!(!path("dir1/subdir22").prefix_matches(&path("dir1/subdir2")));
    assert!(path("dir1/subdir2/x").prefix_matches(&path("dir1/subdir2")));
    assert!(path("dir1/subdir2").prefix_matches(&path("dir1/subdir2")));
    assert!(!path("dir1").prefix_matches(&path("dir1/subdir2")));
    assert!(path("anything/at/all").prefix_matches(&StoragePath::root()));
    assert!(!StoragePath::root().prefix_matches(&path("a")));
}

#[test]
fn duplicates_stay_once() {
    let kept = dedup_paths(&vec![path("a"), path("b"), path("a"), path("b/c"), path("b")]);
    assert_eq!(kept.len(), 2);
    assert!(holds(&kept, "a"));
    assert!(holds(&kept, "b"));
}

#[test]
fn empty_input_gives_empty_result() {
    assert_eq!(dedup_paths(&Vec::new()).len(), 0);
}

#[test]
fn later_prefix_removes_several_kept_paths() {
    let kept = dedup_paths(&vec![path("a/x"), path("b"), path("a/y/z"), path("a")]);
    assert_eq!(kept.len(), 2);
    assert!(holds(&kept, "a"));
    assert!(holds(&kept, "b"));
}

#[test]
fn parse_gives_the_normal_form() {
    assert_eq!(path("/foo/bar/").as_str(), "foo/bar");
    assert_eq!(path("foo/bar/").as_str(), "foo/bar");
    assert_eq!(path("/foo/bar").as_str(), "foo/bar");
    assert_eq!(path("foo/bar").to_string(), "foo/bar");
    assert_eq!(path("").as_str(), "");
    assert_eq!(path("/").as_str(), "");
    assert_eq!(path("/foo/foo%2Fbar").as_str(), "foo/foo%2Fbar");
    assert!(path("/a/").same_as(&path("a")));
    assert!(!path("a").same_as(&path("b")));
}

#[test]
fn parse_rejects_malformed_paths() {
    for text in ["//", "foo//bar", "/foo//", "..", ".", "a/../b", "a/./b", "a\u{0}b", "a/b\u{7f}", "a\tb"] {
        match StoragePath::parse(text) {
            Err(Error::Path(_)) => {}
            other => panic!("{:?} gave {:?}", text, other),
        }
    }
    assert!(StoragePath::parse("a/..b/c").is_ok());
    assert!(StoragePath::parse("a/.../c").is_ok());
    assert!(StoragePath::parse("a b/c").is_ok());
}

#[test]
fn clone_keeps_the_path() {
    let first = path("x/y");
    let copy = first.clone();
    assert!(copy.same_as(&first));
    assert_eq!(copy.as_str(), "x/y");
}
