//! The engine of the centralized backend.  Every operation runs through
//! the external command-line client: the engine first demands a probe of
//! the client's version flag and fails fast with install guidance when the
//! client is missing, validates required inputs before any process is
//! invoked, builds the exact command for the host to run, and reads the
//! captured outcome back into a summary or a classified failure.

use vstd::prelude::*;
use crate::outcome::{FailureKind, VcsFailure, failed_with, err_text};
use crate::process::{ProcessOutcome, CommandRequest, outcome_succeeded, outcome_stdout,
    outcome_diagnostic};
use crate::classify::{classify_text, classify_failure_text};
use crate::credentials::auth_guidance_text;
use crate::status::{WorkingCopyStatus, working_copy_status_wf, WorkingCopyInfo, parse_cli_info,
    parse_cli_status, build_working_copy_status, first_with_prefix, cli_status_modified,
    cli_status_untracked};
use crate::text::{contains_sub, contains_at, lines_of, split_lines, contains_str};

verus! {

/// The probe run before every operation: the client's version flag.
pub fn svn_version_request() -> (r: CommandRequest)
    ensures
        r.program@ == "svn"@,
        r.args@.map_values(|a: String| a@) == seq!["--version"@, "--quiet"@],
        r.cwd@ == "."@,
{
    let mut args: Vec<String> = Vec::new();
    args.push(String::from_str("--version"));
    args.push(String::from_str("--quiet"));
    proof {
        assert(args@.map_values(|a: String| a@) =~= seq!["--version"@, "--quiet"@]);
    }
    CommandRequest { program: String::from_str("svn"), args, cwd: String::from_str(".") }
}

/// The install guidance given when the client is missing.
pub open spec fn install_guidance_text() -> Seq<char> {
    "the svn command-line client is not installed; install it and make sure it is on the search path"@
}

/// Reads the version probe: any outcome but a successful exit means the
/// client is unusable, an `Environment` failure carrying install guidance.
pub fn cli_availability(outcome: &ProcessOutcome) -> (r: Result<(), VcsFailure>)
    ensures
        outcome_succeeded(*outcome) ==> r is Ok,
        !outcome_succeeded(*outcome) ==> failed_with(r, FailureKind::Environment) && err_text(r)
            == install_guidance_text(),
{
    if outcome.succeeded() {
        Ok(())
    } else {
        Err(
            VcsFailure::new(
                FailureKind::Environment,
                String::from_str(
                    "the svn command-line client is not installed; install it and make sure it is on the search path",
                ),
            ),
        )
    }
}

/// The client's `info` query, run against the working-copy root.
pub fn svn_info_request(root: &str) -> (r: CommandRequest)
    ensures
        r.program@ == "svn"@,
        r.args@.map_values(|a: String| a@) == seq!["info"@],
        r.cwd@ == root@,
{
    let mut args: Vec<String> = Vec::new();
    args.push(String::from_str("info"));
    proof {
        assert(args@.map_values(|a: String| a@) =~= seq!["info"@]);
    }
    CommandRequest { program: String::from_str("svn"), args, cwd: String::from_str(root) }
}

/// The client's `status` query, run against the working-copy root.
pub fn svn_status_request(root: &str) -> (r: CommandRequest)
    ensures
        r.program@ == "svn"@,
        r.args@.map_values(|a: String| a@) == seq!["status"@],
        r.cwd@ == root@,
{
    let mut args: Vec<String> = Vec::new();
    args.push(String::from_str("status"));
    proof {
        assert(args@.map_values(|a: String| a@) =~= seq!["status"@]);
    }
    CommandRequest { program: String::from_str("svn"), args, cwd: String::from_str(root) }
}

/// The client's `update` command for the given path.
pub fn svn_update_request(path: &str) -> (r: CommandRequest)
    ensures
        r.program@ == "svn"@,
        r.args@.map_values(|a: String| a@) == seq!["update"@],
        r.cwd@ == path@,
{
    let mut args: Vec<String> = Vec::new();
    args.push(String::from_str("update"));
    proof {
        assert(args@.map_values(|a: String| a@) =~= seq!["update"@]);
    }
    CommandRequest { program: String::from_str("svn"), args, cwd: String::from_str(path) }
}

/// The client's `diff` command for the given path.
pub fn svn_diff_request(path: &str) -> (r: CommandRequest)
    ensures
        r.program@ == "svn"@,
        r.args@.map_values(|a: String| a@) == seq!["diff"@],
        r.cwd@ == path@,
{
    let mut args: Vec<String> = Vec::new();
    args.push(String::from_str("diff"));
    proof {
        assert(args@.map_values(|a: String| a@) =~= seq!["diff"@]);
    }
    CommandRequest { program: String::from_str("svn"), args, cwd: String::from_str(path) }
}

/// Validates and builds the client's `commit` command: the message must be
/// non-empty before any process is invoked.
pub fn svn_commit_request(path: &str, message: &str) -> (r: Result<CommandRequest, VcsFailure>)
    ensures
        message@.len() == 0 <==> failed_with(r, FailureKind::Validation),
        r matches Ok(c) ==> c.program@ == "svn"@ && c.args@.map_values(|a: String| a@)
            == seq!["commit"@, "-m"@, message@] && c.cwd@ == path@,
{
    if message.unicode_len() == 0 {
        return Err(
            VcsFailure::new(
                FailureKind::Validation,
                String::from_str("commit message must not be empty"),
            ),
        );
    }
    let mut args: Vec<String> = Vec::new();
    args.push(String::from_str("commit"));
    args.push(String::from_str("-m"));
    args.push(String::from_str(message));
    proof {
        assert(args@.map_values(|a: String| a@) =~= seq!["commit"@, "-m"@, message@]);
    }
    Ok(CommandRequest { program: String::from_str("svn"), args, cwd: String::from_str(path) })
}

/// Validates and builds the client's `add` command: an empty file list is
/// rejected before any process is spawned.
pub fn svn_add_request(path: &str, files: &Vec<String>) -> (r: Result<CommandRequest, VcsFailure>)
    ensures
        files@.len() == 0 <==> failed_with(r, FailureKind::Validation),
        files@.len() == 0 ==> err_text(r) == "no files to add"@,
        r matches Ok(c) ==> c.program@ == "svn"@ && c.args@.map_values(|a: String| a@)
            == seq!["add"@] + files@.map_values(|f: String| f@) && c.cwd@ == path@,
{
    if files.len() == 0 {
        return Err(
            VcsFailure::new(FailureKind::Validation, String::from_str("no files to add")),
        );
    }
    let mut args: Vec<String> = Vec::new();
    args.push(String::from_str("add"));
    let mut i: usize = 0;
    while i < files.len()
        invariant
            0 <= i <= files@.len(),
            args@.map_values(|a: String| a@) == seq!["add"@] + files@.take(i as int).map_values(
                |f: String| f@,
            ),
        decreases files@.len() - i,
    {
        let ghost prev = args@;
        args.push(files[i].clone());
        proof {
            assert(args@.map_values(|a: String| a@) =~~= prev.map_values(|a: String| a@)
                + seq![files@[i as int]@]);
            assert(files@.take(i + 1).map_values(|f: String| f@) =~~= files@.take(
                i as int,
            ).map_values(|f: String| f@) + seq![files@[i as int]@]);
            assert(args@.map_values(|a: String| a@) =~~= seq!["add"@] + files@.take(
                i + 1,
            ).map_values(|f: String| f@));
        }
        i += 1;
    }
    proof {
        assert(files@.take(files@.len() as int) =~= files@);
    }
    Ok(CommandRequest { program: String::from_str("svn"), args, cwd: String::from_str(path) })
}

/// Builds the client's `revert` command: the named files when there are
/// any, and a recursive revert of the whole working copy when the caller
/// names none.
pub fn svn_revert_request(path: &str, files: &Vec<String>) -> (r: CommandRequest)
    ensures
        r.program@ == "svn"@,
        r.cwd@ == path@,
        files@.len() == 0 ==> r.args@.map_values(|a: String| a@) == seq![
            "revert"@,
            "-R"@,
            "."@,
        ],
        files@.len() > 0 ==> r.args@.map_values(|a: String| a@) == seq!["revert"@]
            + files@.map_values(|f: String| f@),
{
    let mut args: Vec<String> = Vec::new();
    args.push(String::from_str("revert"));
    if files.len() == 0 {
        args.push(String::from_str("-R"));
        args.push(String::from_str("."));
        proof {
            assert(args@.map_values(|a: String| a@) =~= seq!["revert"@, "-R"@, "."@]);
        }
    } else {
        let mut i: usize = 0;
        while i < files.len()
            invariant
                0 <= i <= files@.len(),
                args@.map_values(|a: String| a@) == seq!["revert"@] + files@.take(
                    i as int,
                ).map_values(|f: String| f@),
            decreases files@.len() - i,
        {
            let ghost prev = args@;
            args.push(files[i].clone());
            proof {
                assert(args@.map_values(|a: String| a@) =~~= prev.map_values(|a: String| a@)
                    + seq![files@[i as int]@]);
                assert(files@.take(i + 1).map_values(|f: String| f@) =~~= files@.take(
                    i as int,
                ).map_values(|f: String| f@) + seq![files@[i as int]@]);
                assert(args@.map_values(|a: String| a@) =~~= seq!["revert"@] + files@.take(
                    i + 1,
                ).map_values(|f: String| f@));
            }
            i += 1;
        }
        proof {
            assert(files@.take(files@.len() as int) =~= files@);
        }
    }
    CommandRequest { program: String::from_str("svn"), args, cwd: String::from_str(path) }
}

/// Validates and builds the client's `checkout` command: both the URL and
/// the target path must be non-empty before any process is invoked.
pub fn svn_checkout_request(url: &str, target: &str) -> (r: Result<CommandRequest, VcsFailure>)
    ensures
        (url@.len() == 0 || target@.len() == 0) <==> failed_with(r, FailureKind::Validation),
        r matches Ok(c) ==> c.program@ == "svn"@ && c.args@.map_values(|a: String| a@)
            == seq!["checkout"@, url@, target@] && c.cwd@ == "."@,
{
    if url.unicode_len() == 0 || target.unicode_len() == 0 {
        return Err(
            VcsFailure::new(
                FailureKind::Validation,
                String::from_str("checkout needs a non-empty URL and a non-empty target path"),
            ),
        );
    }
    let mut args: Vec<String> = Vec::new();
    args.push(String::from_str("checkout"));
    args.push(String::from_str(url));
    args.push(String::from_str(target));
    proof {
        assert(args@.map_values(|a: String| a@) =~= seq!["checkout"@, url@, target@]);
    }
    Ok(CommandRequest { program: String::from_str("svn"), args, cwd: String::from_str(".") })
}

/// The server-contacting probe of the authentication test.
pub fn svn_auth_request(path: &str) -> (r: CommandRequest)
    ensures
        r.program@ == "svn"@,
        r.args@.map_values(|a: String| a@) == seq!["status"@, "--show-updates"@],
        r.cwd@ == path@,
{
    let mut args: Vec<String> = Vec::new();
    args.push(String::from_str("status"));
    args.push(String::from_str("--show-updates"));
    proof {
        assert(args@.map_values(|a: String| a@) =~= seq!["status"@, "--show-updates"@]);
    }
    CommandRequest { program: String::from_str("svn"), args, cwd: String::from_str(path) }
}

/// The first line of the lines that carries the marker, if any does.
pub open spec fn first_containing(lines: Seq<Seq<char>>, marker: Seq<char>) -> Option<Seq<char>>
    decreases lines.len(),
{
    if lines.len() == 0 {
        None
    } else if contains_sub(lines[0], marker) {
        Some(lines[0])
    } else {
        first_containing(lines.drop_first(), marker)
    }
}

/// The one-line summary of a successful command: the first output line
/// carrying the recognizable marker phrase, or a generic success message
/// when no line does.
pub open spec fn summary_text(output: Seq<char>, marker: Seq<char>) -> Seq<char> {
    match first_containing(lines_of(output), marker) {
        Some(l) => l,
        None => "Operation completed successfully."@,
    }
}

/// Extracts the one-line summary of a successful command's output.
pub fn summarize_output(output: &str, marker: &str) -> (r: String)
    ensures
        r@ == summary_text(output@, marker@),
{
    let lines = split_lines(output);
    let ghost line_views = lines@.map_values(|p: String| p@);
    let mut i: usize = 0;
    proof {
        assert(line_views.skip(0) =~= line_views);
    }
    while i < lines.len()
        invariant
            line_views == lines@.map_values(|p: String| p@),
            line_views == lines_of(output@),
            0 <= i <= lines@.len(),
            first_containing(line_views, marker@) == first_containing(
                line_views.skip(i as int),
                marker@,
            ),
        decreases lines@.len() - i,
    {
        proof {
            assert(line_views.skip(i as int)[0] == line_views[i as int]);
            assert(line_views.skip(i as int).drop_first() =~= line_views.skip(i + 1));
        }
        if contains_str(lines[i].as_str(), marker) {
            proof {
                assert(line_views[i as int] == lines@[i as int]@);
                assert(line_views.skip(i as int).len() > 0);
                assert(first_containing(line_views.skip(i as int), marker@) == Some(
                    line_views[i as int],
                ));
            }
            return lines[i].clone();
        }
        i += 1;
    }
    proof {
        assert(line_views.skip(line_views.len() as int) =~= Seq::<Seq<char>>::empty());
    }
    String::from_str("Operation completed successfully.")
}

/// Reads the outcome of one client command: a successful exit yields the
/// one-line summary of its output under the given marker; a completed
/// failure carries its diagnostic text verbatim under the classified
/// category; a process that never launched is a `ProcessLaunch` failure.
pub fn svn_operation_result(outcome: &ProcessOutcome, marker: &str) -> (r: Result<
    String,
    VcsFailure,
>)
    ensures
        outcome_succeeded(*outcome) ==> (r matches Ok(m) && m@ == summary_text(
            outcome_stdout(*outcome),
            marker@,
        )),
        !outcome_succeeded(*outcome) ==> (r matches Err(e) && e.message@ == outcome_diagnostic(
            *outcome,
        ) && e.kind == match *outcome {
            ProcessOutcome::LaunchFailed { .. } => FailureKind::ProcessLaunch,
            ProcessOutcome::Completed { stderr, .. } => classify_text(stderr@),
        }),
{
    match outcome {
        ProcessOutcome::Completed { success, stdout, stderr } => {
            if *success {
                Ok(summarize_output(stdout.as_str(), marker))
            } else {
                let kind = classify_failure_text(stderr.as_str());
                Err(VcsFailure::new(kind, stderr.clone()))
            }
        },
        ProcessOutcome::LaunchFailed { error } => {
            Err(VcsFailure::new(FailureKind::ProcessLaunch, error.clone()))
        },
    }
}

/// Reads the outcome of the authentication probe.  A success reports so; a
/// failure whose diagnostic matches the authentication patterns is
/// enriched with the credential guidance text beside the verbatim
/// diagnostic; any other failure keeps its classification and text.
pub fn svn_auth_result(outcome: &ProcessOutcome) -> (r: Result<String, VcsFailure>)
    ensures
        outcome_succeeded(*outcome) ==> (r matches Ok(m) && m@
            == "Authentication test succeeded."@),
        !outcome_succeeded(*outcome) ==> (r matches Err(e) && e.kind == match *outcome {
            ProcessOutcome::LaunchFailed { .. } => FailureKind::ProcessLaunch,
            ProcessOutcome::Completed { stderr, .. } => classify_text(stderr@),
        }),
        !outcome_succeeded(*outcome) && classify_text(outcome_diagnostic(*outcome))
            == FailureKind::Authentication && *outcome is Completed ==> (r matches Err(e)
            && contains_sub(e.message@, outcome_diagnostic(*outcome)) && contains_sub(
            e.message@,
            auth_guidance_text(),
        )),
        !outcome_succeeded(*outcome) && !(*outcome is Completed && classify_text(
            outcome_diagnostic(*outcome),
        ) == FailureKind::Authentication) ==> (r matches Err(e) && e.message@
            == outcome_diagnostic(*outcome)),
{
    match outcome {
        ProcessOutcome::Completed { success, stderr, .. } => {
            if *success {
                Ok(String::from_str("Authentication test succeeded."))
            } else {
                let kind = classify_failure_text(stderr.as_str());
                match kind {
                    FailureKind::Authentication => {
                        let mut m = stderr.clone();
                        m.append("; ");
                        let g = crate::credentials::auth_guidance();
                        m.append(g.as_str());
                        proof {
                            let mid = "; "@;
                            let q: int = (stderr@.len() + mid.len()) as int;
                            assert(m@.subrange(0, stderr@.len() as int) =~= stderr@);
                            assert(contains_at(m@, stderr@, 0));
                            assert(m@.subrange(q, q + auth_guidance_text().len())
                                =~= auth_guidance_text());
                            assert(contains_at(m@, auth_guidance_text(), q));
                        }
                        Err(VcsFailure::new(FailureKind::Authentication, m))
                    },
                    _ => Err(VcsFailure::new(kind, stderr.clone())),
                }
            }
        },
        ProcessOutcome::LaunchFailed { error } => {
            Err(VcsFailure::new(FailureKind::ProcessLaunch, error.clone()))
        },
    }
}

/// Assembles the centralized backend's status record from the `info` and
/// `status` outputs taken at the working-copy root: the record's scalar
/// fields come from line-prefix matching over the `info` text, the lists
/// from the leading status characters of the `status` text, and
/// `is_dirty` is their disjunction.
pub fn working_copy_status_outcome(info_text: &str, status_text: &str) -> (s: WorkingCopyStatus)
    ensures
        s.revision.deep_view() == first_with_prefix(lines_of(info_text@), "Revision: "@),
        s.url.deep_view() == first_with_prefix(lines_of(info_text@), "URL: "@),
        s.repository_root.deep_view() == first_with_prefix(
            lines_of(info_text@),
            "Repository Root: "@,
        ),
        s.author.deep_view() == first_with_prefix(lines_of(info_text@), "Last Changed Author: "@),
        s.date.deep_view() == first_with_prefix(lines_of(info_text@), "Last Changed Date: "@),
        s.modified@.map_values(|p: String| p@) == cli_status_modified(status_text@),
        s.untracked@.map_values(|p: String| p@) == cli_status_untracked(status_text@),
        s.is_dirty == (cli_status_modified(status_text@).len() > 0 || cli_status_untracked(
            status_text@,
        ).len() > 0),
        working_copy_status_wf(s),
{
    let info = parse_cli_info(info_text);
    let (modified, untracked) = parse_cli_status(status_text);
    proof {
        assert(modified@.map_values(|p: String| p@).len() == modified@.len());
        assert(untracked@.map_values(|p: String| p@).len() == untracked@.len());
    }
    build_working_copy_status(info, modified, untracked)
}

} // verus!
