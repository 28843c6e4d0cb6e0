use vcs_core::locator::{parent_of_str, ancestor_chain, locate_working_copy_root};
use vcs_core::outcome::FailureKind;

#[test]
fn parents() {
    assert_eq!(parent_of_str("/a/b/c"), Some("/a/b".to_string()));
    assert_eq!(parent_of_str("/a"), Some("/".to_string()));
    assert_eq!(parent_of_str("/"), None);
    assert_eq!(parent_of_str("rel/x"), Some("rel".to_string()));
    assert_eq!(parent_of_str("plain"), None);
}

#[test]
fn chains() {
    assert_eq!(ancestor_chain("/a/b/c"), vec!["/a/b/c", "/a/b", "/a", "/"]);
    assert_eq!(ancestor_chain("solo"), vec!["solo"]);
}

#[test]
fn locator_returns_third_ancestor_exactly() {
    // a path three levels below the directory holding the metadata directory
    let chain = ancestor_chain("/repo/a/b/c");
    assert_eq!(chain, vec!["/repo/a/b/c", "/repo/a/b", "/repo/a", "/repo", "/"]);
    let probes = vec![false, false, false, true, false];
    let root = locate_working_copy_root(true, &chain, &probes).unwrap();
    assert_eq!(root, "/repo");
}

#[test]
fn locator_without_metadata_anywhere() {
    let chain = ancestor_chain("/x/y");
    let probes = vec![false; chain.len()];
    let err = locate_working_copy_root(true, &chain, &probes).unwrap_err();
    assert_eq!(err.kind, FailureKind::NotAWorkingCopy);
}

#[test]
fn locator_missing_path() {
    let chain = ancestor_chain("/gone");
    let probes = vec![false; chain.len()];
    let err = locate_working_copy_root(false, &chain, &probes).unwrap_err();
    assert_eq!(err.kind, FailureKind::NotFound);
}

#[test]
fn locator_prefers_nearest_ancestor() {
    let chain = ancestor_chain("/r/sub");
    // both /r/sub and /r hold metadata: the nearest wins
    let probes = vec![true, true, false];
    let root = locate_working_copy_root(true, &chain, &probes).unwrap();
    assert_eq!(root, "/r/sub");
}
