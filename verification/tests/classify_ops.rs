use vcs_core::classify::{classify_failure_text, classified_failure, contains_ci_str};
use vcs_core::outcome::FailureKind;

#[test]
fn case_insensitive_search() {
    assert!(contains_ci_str("E170001: Authorization failed", "auth"));
    assert!(contains_ci_str("PERMISSION DENIED", "permission denied"));
    assert!(!contains_ci_str("all good", "auth"));
}

#[test]
fn authentication_patterns() {
    assert_eq!(
        classify_failure_text("remote: HTTP Basic: Access denied... fatal: Authentication failed"),
        FailureKind::Authentication
    );
    assert_eq!(classify_failure_text("HTTP 401 returned"), FailureKind::Authentication);
    assert_eq!(classify_failure_text("server said 403"), FailureKind::Authentication);
    assert_eq!(
        classify_failure_text("git@host: Permission denied (publickey)."),
        FailureKind::Authentication
    );
    assert_eq!(
        classify_failure_text("fatal: could not read Username for 'https://x'"),
        FailureKind::Authentication
    );
}

#[test]
fn repository_and_working_copy_patterns() {
    assert_eq!(
        classify_failure_text("fatal: not a git repository (or any parent)"),
        FailureKind::NotARepository
    );
    assert_eq!(
        classify_failure_text("svn: E155007: '/x' is not a working copy"),
        FailureKind::NotAWorkingCopy
    );
}

#[test]
fn divergence_and_no_changes_patterns() {
    assert_eq!(
        classify_failure_text("! [rejected] main -> main (non-fast-forward)"),
        FailureKind::Divergence
    );
    assert_eq!(
        classify_failure_text("your branch and origin have diverged"),
        FailureKind::Divergence
    );
    assert_eq!(
        classify_failure_text("nothing to commit, working tree clean"),
        FailureKind::NoChanges
    );
}

#[test]
fn priority_and_fallback() {
    // the repository rule stands before the authentication rule
    assert_eq!(
        classify_failure_text("not a git repository; authentication failed"),
        FailureKind::NotARepository
    );
    assert_eq!(classify_failure_text("some novel breakage"), FailureKind::Unknown);
}

#[test]
fn classified_failure_keeps_text() {
    let f = classified_failure("HTTP 401 returned");
    assert_eq!(f.kind, FailureKind::Authentication);
    assert_eq!(f.message, "HTTP 401 returned");
}
