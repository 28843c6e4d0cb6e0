use vcs_core::engine_svn::{svn_version_request, cli_availability, svn_info_request,
    svn_status_request, svn_update_request, svn_diff_request, svn_commit_request, svn_add_request,
    svn_revert_request, svn_checkout_request, svn_auth_request, summarize_output,
    svn_operation_result, svn_auth_result, working_copy_status_outcome};
use vcs_core::process::ProcessOutcome;
use vcs_core::outcome::FailureKind;
use vcs_core::credentials::auth_guidance;

fn completed(success: bool, stdout: &str, stderr: &str) -> ProcessOutcome {
    ProcessOutcome::Completed {
        success,
        stdout: stdout.to_string(),
        stderr: stderr.to_string(),
    }
}

#[test]
fn version_probe_and_availability() {
    let probe = svn_version_request();
    assert_eq!(probe.program, "svn");
    assert_eq!(probe.args, vec!["--version", "--quiet"]);
    assert!(cli_availability(&completed(true, "1.14.2\n", "")).is_ok());
    let missing = ProcessOutcome::LaunchFailed { error: "not found".to_string() };
    let err = cli_availability(&missing).unwrap_err();
    assert_eq!(err.kind, FailureKind::Environment);
    assert!(err.message.contains("install"));
}

#[test]
fn request_builders() {
    assert_eq!(svn_info_request("/wc").args, vec!["info"]);
    assert_eq!(svn_status_request("/wc").args, vec!["status"]);
    assert_eq!(svn_update_request("/wc").args, vec!["update"]);
    assert_eq!(svn_diff_request("/wc").args, vec!["diff"]);
    assert_eq!(svn_auth_request("/wc").args, vec!["status", "--show-updates"]);
    assert_eq!(svn_info_request("/wc").cwd, "/wc");
}

#[test]
fn commit_request_validation() {
    let err = svn_commit_request("/wc", "").unwrap_err();
    assert_eq!(err.kind, FailureKind::Validation);
    let c = svn_commit_request("/wc", "fix things").unwrap();
    assert_eq!(c.args, vec!["commit", "-m", "fix things"]);
}

#[test]
fn add_with_empty_file_list_spawns_nothing() {
    // the validation failure comes before any command request exists
    let err = svn_add_request("/wc", &Vec::new()).unwrap_err();
    assert_eq!(err.kind, FailureKind::Validation);
    assert_eq!(err.message, "no files to add");
}

#[test]
fn add_and_revert_requests() {
    let files = vec!["a.c".to_string(), "b.c".to_string()];
    let add = svn_add_request("/wc", &files).unwrap();
    assert_eq!(add.args, vec!["add", "a.c", "b.c"]);
    let revert_named = svn_revert_request("/wc", &files);
    assert_eq!(revert_named.args, vec!["revert", "a.c", "b.c"]);
    let revert_all = svn_revert_request("/wc", &Vec::new());
    assert_eq!(revert_all.args, vec!["revert", "-R", "."]);
}

#[test]
fn checkout_validation() {
    assert_eq!(
        svn_checkout_request("", "/t").unwrap_err().kind,
        FailureKind::Validation
    );
    assert_eq!(
        svn_checkout_request("https://server/repo", "").unwrap_err().kind,
        FailureKind::Validation
    );
    let c = svn_checkout_request("https://server/repo", "/t").unwrap();
    assert_eq!(c.args, vec!["checkout", "https://server/repo", "/t"]);
}

#[test]
fn summary_extraction() {
    let out = "Updating '.':\nA    new.c\nUpdated to revision 1411.\n";
    assert_eq!(
        summarize_output(out, "Updated to revision"),
        "Updated to revision 1411."
    );
    assert_eq!(
        summarize_output("quiet output", "Updated to revision"),
        "Operation completed successfully."
    );
}

#[test]
fn operation_result_reading() {
    let ok = completed(true, "Committed revision 9.\n", "");
    assert_eq!(
        svn_operation_result(&ok, "Committed revision").unwrap(),
        "Committed revision 9."
    );
    let failed = completed(false, "", "svn: E155007: '/x' is not a working copy");
    let err = svn_operation_result(&failed, "Committed revision").unwrap_err();
    assert_eq!(err.kind, FailureKind::NotAWorkingCopy);
    assert_eq!(err.message, "svn: E155007: '/x' is not a working copy");
    let unlaunched = ProcessOutcome::LaunchFailed { error: "no svn".to_string() };
    let err2 = svn_operation_result(&unlaunched, "x").unwrap_err();
    assert_eq!(err2.kind, FailureKind::ProcessLaunch);
    assert_eq!(err2.message, "no svn");
}

#[test]
fn auth_result_enrichment() {
    let ok = completed(true, "Status against revision: 10\n", "");
    assert_eq!(svn_auth_result(&ok).unwrap(), "Authentication test succeeded.");
    let denied = completed(false, "", "svn: E170001: Authorization failed");
    let err = svn_auth_result(&denied).unwrap_err();
    assert_eq!(err.kind, FailureKind::Authentication);
    assert!(err.message.contains("E170001"));
    assert!(err.message.contains(auth_guidance().as_str()));
    let other = completed(false, "", "svn: E000001: something else");
    let err2 = svn_auth_result(&other).unwrap_err();
    assert_eq!(err2.message, "svn: E000001: something else");
}

#[test]
fn combined_status_record() {
    let info = "URL: https://server/repo/trunk\nRevision: 1410\nLast Changed Author: dev1\n";
    let status = "M       a.c\n?       b.c\n";
    let s = working_copy_status_outcome(info, status);
    assert_eq!(s.revision, Some("1410".to_string()));
    assert_eq!(s.url, Some("https://server/repo/trunk".to_string()));
    assert_eq!(s.modified, vec!["a.c"]);
    assert_eq!(s.untracked, vec!["b.c"]);
    assert!(s.is_dirty);
}
