use vcs_core::status::{parse_porcelain_status, parse_cli_status, parse_cli_info,
    build_repository_status, build_working_copy_status, summarize_entries, StatusEntry,
    EntryState};

#[test]
fn empty_worktree_status_is_clean() {
    // empty working tree: no modified, no untracked, not dirty
    let (modified, untracked) = parse_porcelain_status("");
    let s = build_repository_status(
        Some("main".to_string()),
        Some("abc123".to_string()),
        modified,
        untracked,
    );
    assert_eq!(s.modified, Vec::<String>::new());
    assert_eq!(s.untracked, Vec::<String>::new());
    assert!(!s.is_dirty);
    assert_eq!(s.branch, Some("main".to_string()));
    assert_eq!(s.head_revision, Some("abc123".to_string()));
    assert!(s.ahead.is_none());
    assert!(s.behind.is_none());
}

#[test]
fn one_untracked_file_is_dirty() {
    let (modified, untracked) = parse_porcelain_status("?? a.txt");
    assert_eq!(modified, Vec::<String>::new());
    assert_eq!(untracked, vec!["a.txt"]);
    let s = build_repository_status(None, None, modified, untracked);
    assert_eq!(s.untracked, vec!["a.txt"]);
    assert!(s.is_dirty);
}

#[test]
fn porcelain_classification() {
    let text = " M lib.rs\n?? new.txt\n!! ignored.bin\nA  added.rs\nD  gone.rs";
    let (modified, untracked) = parse_porcelain_status(text);
    assert_eq!(modified, vec!["lib.rs", "added.rs", "gone.rs"]);
    assert_eq!(untracked, vec!["new.txt"]);
}

#[test]
fn porcelain_dirty_iff_lists_non_empty() {
    let (m1, u1) = parse_porcelain_status(" M x");
    assert!(build_repository_status(None, None, m1, u1).is_dirty);
    let (m2, u2) = parse_porcelain_status("");
    assert!(!build_repository_status(None, None, m2, u2).is_dirty);
}

#[test]
fn entry_summarizing() {
    let entries = vec![
        StatusEntry { state: EntryState::Current, path: "same.rs".to_string() },
        StatusEntry { state: EntryState::New, path: "fresh.rs".to_string() },
        StatusEntry { state: EntryState::Modified, path: "edited.rs".to_string() },
        StatusEntry { state: EntryState::Deleted, path: "gone.rs".to_string() },
        StatusEntry { state: EntryState::Renamed, path: "moved.rs".to_string() },
        StatusEntry { state: EntryState::Conflicted, path: "clash.rs".to_string() },
    ];
    let (modified, untracked) = summarize_entries(&entries);
    assert_eq!(modified, vec!["edited.rs", "gone.rs", "moved.rs", "clash.rs"]);
    assert_eq!(untracked, vec!["fresh.rs"]);
}

#[test]
fn cli_status_classification() {
    let text = "M       src/a.c\nA       src/b.c\nD       src/c.c\nR       src/d.c\n?       scratch\nC       conflicted\nX       ext";
    let (modified, untracked) = parse_cli_status(text);
    assert_eq!(modified, vec!["src/a.c", "src/b.c", "src/c.c", "src/d.c"]);
    assert_eq!(untracked, vec!["scratch"]);
}

#[test]
fn cli_info_prefix_matching() {
    let text = "Path: .\nURL: https://server/repo/trunk\nRepository Root: https://server/repo\nRevision: 1410\nLast Changed Author: dev1\nLast Changed Date: 2024-01-02 03:04:05";
    let info = parse_cli_info(text);
    assert_eq!(info.revision, Some("1410".to_string()));
    assert_eq!(info.url, Some("https://server/repo/trunk".to_string()));
    assert_eq!(info.repository_root, Some("https://server/repo".to_string()));
    assert_eq!(info.author, Some("dev1".to_string()));
    assert_eq!(info.date, Some("2024-01-02 03:04:05".to_string()));
}

#[test]
fn cli_info_missing_fields() {
    let info = parse_cli_info("Path: .");
    assert_eq!(info.revision, None);
    assert_eq!(info.url, None);
}

#[test]
fn working_copy_record_derives_dirty() {
    let info = parse_cli_info("Revision: 7");
    let (modified, untracked) = parse_cli_status("M       f.txt");
    let s = build_working_copy_status(info, modified, untracked);
    assert_eq!(s.revision, Some("7".to_string()));
    assert_eq!(s.modified, vec!["f.txt"]);
    assert!(s.is_dirty);
}
