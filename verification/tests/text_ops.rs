use vcs_core::text::{contains_str, find_sub, starts_with_str, str_eq, strip_prefix_str, trim_str,
    split_str, split_lines, find_char, find_first_match};

#[test]
fn find_sub_first_occurrence() {
    assert_eq!(find_sub("abcabc", "bc"), Some(1));
    assert_eq!(find_sub("abcabc", "zz"), None);
    assert_eq!(find_sub("abc", ""), Some(0));
    assert_eq!(find_sub("", "a"), None);
}

#[test]
fn contains_and_prefix() {
    assert!(contains_str("error: authentication failed", "auth"));
    assert!(!contains_str("fine", "auth"));
    assert!(starts_with_str("refs/heads/main", "refs/"));
    assert!(!starts_with_str("refs", "refs/"));
}

#[test]
fn string_equality() {
    assert!(str_eq("same", "same"));
    assert!(!str_eq("same", "sam"));
    assert!(!str_eq("same", "samx"));
}

#[test]
fn prefix_stripping() {
    assert_eq!(strip_prefix_str("Revision: 42", "Revision: "), Some("42".to_string()));
    assert_eq!(strip_prefix_str("URL: x", "Revision: "), None);
}

#[test]
fn trimming() {
    assert_eq!(trim_str("  hello \n"), "hello");
    assert_eq!(trim_str("\t\r\n "), "");
    assert_eq!(trim_str("no-space"), "no-space");
}

#[test]
fn splitting() {
    assert_eq!(split_str("a/b/c", '/'), vec!["a", "b", "c"]);
    assert_eq!(split_str("/a/", '/'), vec!["", "a", ""]);
    assert_eq!(split_str("", '/'), vec![""]);
}

#[test]
fn line_splitting_handles_both_endings() {
    assert_eq!(split_lines("one\r\ntwo\nthree"), vec!["one", "two", "three"]);
    assert_eq!(split_lines("solo"), vec!["solo"]);
    assert_eq!(split_lines("end\n"), vec!["end", ""]);
}

#[test]
fn char_and_pattern_search() {
    assert_eq!(find_char("a@b", '@'), Some(1));
    assert_eq!(find_char("ab", '@'), None);
    assert_eq!(find_first_match("x://y", "://"), Some(1));
    assert_eq!(find_first_match("xy", "://"), None);
}
