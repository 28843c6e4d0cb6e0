use vcs_core::engine_git::{transfer_strategies, local_strategies, clone_strategies,
    git_pull_request, git_push_request, cli_transfer_result, conclude_two_tier, remote_for_branch,
    push_refspec, fast_forward_decision, fallback_network_failure, commit_decision, clone_request,
    diff_result, repository_status_outcome, auth_test_report, choose_remote, render_diff,
    ExecutionStrategy, DiffLine, DiffLineKind};
use vcs_core::process::ProcessOutcome;
use vcs_core::outcome::{FailureKind, VcsFailure};
use vcs_core::credentials::auth_guidance;

fn completed(success: bool, stdout: &str, stderr: &str) -> ProcessOutcome {
    ProcessOutcome::Completed {
        success,
        stdout: stdout.to_string(),
        stderr: stderr.to_string(),
    }
}

#[test]
fn strategy_plans() {
    assert_eq!(
        transfer_strategies(),
        vec![ExecutionStrategy::ExternalCli, ExecutionStrategy::EmbeddedLibrary]
    );
    assert_eq!(local_strategies(), vec![ExecutionStrategy::EmbeddedLibrary]);
    assert_eq!(clone_strategies(), vec![ExecutionStrategy::ExternalCli]);
}

#[test]
fn pull_and_push_requests() {
    let r = git_pull_request("/repo");
    assert_eq!(r.program, "git");
    assert_eq!(r.args, vec!["pull"]);
    assert_eq!(r.cwd, "/repo");
    let p = git_push_request("/repo");
    assert_eq!(p.args, vec!["push"]);
}

#[test]
fn cli_transfer_reads_outcome() {
    let ok = completed(true, "  Updating 1a2b..3c4d\nFast-forward\n", "");
    assert_eq!(
        cli_transfer_result(&ok),
        Some("Updating 1a2b..3c4d\nFast-forward".to_string())
    );
    let blank = completed(true, "  \n", "");
    assert_eq!(cli_transfer_result(&blank), Some("Already up to date.".to_string()));
    let failed = completed(false, "", "fatal: no remote");
    assert_eq!(cli_transfer_result(&failed), None);
    let unlaunched = ProcessOutcome::LaunchFailed { error: "no such file".to_string() };
    assert_eq!(cli_transfer_result(&unlaunched), None);
}

#[test]
fn two_tier_conclusion() {
    let fallback: Result<String, VcsFailure> = Ok("fetched".to_string());
    assert_eq!(
        conclude_two_tier(Some("done".to_string()), fallback.clone()).unwrap(),
        "done"
    );
    assert_eq!(conclude_two_tier(None, fallback).unwrap(), "fetched");
}

#[test]
fn remote_resolution() {
    let upstream = "refs/remotes/upstream/main".to_string();
    assert_eq!(remote_for_branch(Some(&upstream)), "upstream");
    let odd = "refs/heads/main".to_string();
    assert_eq!(remote_for_branch(Some(&odd)), "origin");
    assert_eq!(remote_for_branch(None), "origin");
}

#[test]
fn refspec_is_same_named() {
    assert_eq!(push_refspec("main"), "refs/heads/main:refs/heads/main");
}

#[test]
fn fast_forward_cases() {
    assert_eq!(
        fast_forward_decision("aaa", "aaa", false).unwrap(),
        "Already up to date."
    );
    assert_eq!(
        fast_forward_decision("aaa", "bbb", true).unwrap(),
        "Fast-forwarded to the fetched commit."
    );
    let err = fast_forward_decision("aaa", "bbb", false).unwrap_err();
    assert_eq!(err.kind, FailureKind::Divergence);
}

#[test]
fn fallback_auth_failure_names_url_and_guidance() {
    let f = fallback_network_failure(
        "https://host/repo.git",
        "fatal: Authentication failed for 'https://host/repo.git'",
    );
    assert_eq!(f.kind, FailureKind::Authentication);
    assert!(f.message.contains("https://host/repo.git"));
    assert!(f.message.contains(auth_guidance().as_str()));
}

#[test]
fn pull_two_tier_auth_failure_scenario() {
    // tier 1: the external client fails, so the engine goes to the fallback
    let cli = completed(false, "", "fatal: could not read Username for 'https://h/r.git'");
    let tier1 = cli_transfer_result(&cli);
    assert!(tier1.is_none());
    // tier 2: the library fallback fails with an authentication pattern
    let tier2: Result<String, VcsFailure> = Err(fallback_network_failure(
        "https://h/r.git",
        "remote: HTTP Basic: Access denied... fatal: Authentication failed",
    ));
    let err = conclude_two_tier(tier1, tier2).unwrap_err();
    assert_eq!(err.kind, FailureKind::Authentication);
    assert!(err.message.contains("https://h/r.git"));
    assert!(err.message.contains(auth_guidance().as_str()));
}

#[test]
fn fallback_other_failure_keeps_text() {
    let f = fallback_network_failure("https://host/repo.git", "error: broken pipe");
    assert_eq!(f.kind, FailureKind::Unknown);
    assert_eq!(f.message, "error: broken pipe");
}

#[test]
fn commit_with_no_changes_fails() {
    // identical staged and head trees: the benign no-changes condition
    let err = commit_decision("msg", "tree-abc", "tree-abc").unwrap_err();
    assert_eq!(err.kind, FailureKind::NoChanges);
}

#[test]
fn commit_twice_second_always_no_changes() {
    // first commit proceeds: the staged tree differs from the head tree
    assert!(commit_decision("msg", "tree-new", "tree-old").is_ok());
    // afterwards the head tree is the staged tree; nothing changed since
    let second = commit_decision("msg", "tree-new", "tree-new").unwrap_err();
    assert_eq!(second.kind, FailureKind::NoChanges);
}

#[test]
fn commit_validation() {
    let err = commit_decision("", "a", "b").unwrap_err();
    assert_eq!(err.kind, FailureKind::Validation);
}

#[test]
fn clone_validation_and_request() {
    assert_eq!(
        clone_request("", "/tmp/x").unwrap_err().kind,
        FailureKind::Validation
    );
    assert_eq!(
        clone_request("https://h/r.git", "").unwrap_err().kind,
        FailureKind::Validation
    );
    let c = clone_request("https://h/r.git", "/tmp/x").unwrap();
    assert_eq!(c.program, "git");
    assert_eq!(c.args, vec!["clone", "https://h/r.git", "/tmp/x"]);
    assert_eq!(c.cwd, ".");
}

#[test]
fn diff_sentinel() {
    assert_eq!(diff_result(String::new()), "No changes.");
    assert_eq!(diff_result("+line".to_string()), "+line");
}

#[test]
fn status_outcome_without_repository() {
    let err = repository_status_outcome(false, None, None, "").unwrap_err();
    assert_eq!(err.kind, FailureKind::NotARepository);
}

#[test]
fn status_outcome_with_repository() {
    let s = repository_status_outcome(
        true,
        Some("main".to_string()),
        Some("cafe".to_string()),
        "?? a.txt",
    )
    .unwrap();
    assert_eq!(s.untracked, vec!["a.txt"]);
    assert!(s.is_dirty);
}

#[test]
fn remote_preference() {
    let both = vec!["upstream".to_string(), "origin".to_string()];
    assert_eq!(choose_remote(&both).unwrap(), "origin");
    let secondary = vec!["fork".to_string(), "upstream".to_string()];
    assert_eq!(choose_remote(&secondary).unwrap(), "upstream");
    let neither = vec!["fork".to_string()];
    assert_eq!(
        choose_remote(&neither).unwrap_err().kind,
        FailureKind::NotARepository
    );
}

#[test]
fn diff_rendering() {
    let lines = vec![
        DiffLine { kind: DiffLineKind::FileHeader, text: "a.txt".to_string() },
        DiffLine { kind: DiffLineKind::Context, text: "unchanged".to_string() },
        DiffLine { kind: DiffLineKind::Removed, text: "old".to_string() },
        DiffLine { kind: DiffLineKind::Added, text: "new".to_string() },
    ];
    assert_eq!(render_diff(&lines), "--- a.txt\n unchanged\n-old\n+new\n");
    assert_eq!(render_diff(&Vec::new()), "");
}

#[test]
fn auth_report_text() {
    assert_eq!(
        auth_test_report("git@h:r.git", true),
        "Authentication test succeeded for 'git@h:r.git' (scheme: ssh)"
    );
    assert_eq!(
        auth_test_report("https://h/r", false),
        "Authentication test failed for 'https://h/r' (scheme: https)"
    );
}
