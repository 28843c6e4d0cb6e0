//! The engine of the distributed backend.  Each operation is decided here:
//! which commands the host must run, in which order the two execution
//! strategies are tried, what a captured outcome means, and which failure
//! category a diagnostic falls into.  The host performs the commands and
//! library calls and feeds every outcome back as a plain value.

use vstd::prelude::*;
use crate::outcome::{FailureKind, VcsFailure, failed_with};
use crate::process::{ProcessOutcome, CommandRequest, outcome_succeeded, outcome_stdout};
use crate::classify::{classify_text, classify_failure_text};
use crate::credentials::{auth_guidance_text, exhausted_chain_failure, UrlScheme, scheme_of,
    classify_url_scheme};
use crate::status::{RepositoryStatus, repository_status_wf, build_repository_status,
    parse_porcelain_status, porcelain_modified, porcelain_untracked};
use crate::text::{contains_sub, trimmed, trim_str, split_char, split_str, str_eq};

verus! {

/// One way to execute an operation.
#[derive(PartialEq, Eq, Structural, Clone, Copy, Debug)]
pub enum ExecutionStrategy {
    /// Invoke the external command-line client.
    ExternalCli,
    /// Call the embedded library.
    EmbeddedLibrary,
}

/// The strategy order of `pull` and `push`: the external client first, the
/// embedded library as the single fallback, and nothing after it.
pub fn transfer_strategies() -> (plan: Vec<ExecutionStrategy>)
    ensures
        plan@ == seq![ExecutionStrategy::ExternalCli, ExecutionStrategy::EmbeddedLibrary],
{
    let mut plan: Vec<ExecutionStrategy> = Vec::new();
    plan.push(ExecutionStrategy::ExternalCli);
    plan.push(ExecutionStrategy::EmbeddedLibrary);
    proof {
        assert(plan@ =~= seq![ExecutionStrategy::ExternalCli, ExecutionStrategy::EmbeddedLibrary]);
    }
    plan
}

/// The strategy order of `commit` and `diff`: the embedded library only.
pub fn local_strategies() -> (plan: Vec<ExecutionStrategy>)
    ensures
        plan@ == seq![ExecutionStrategy::EmbeddedLibrary],
{
    let mut plan: Vec<ExecutionStrategy> = Vec::new();
    plan.push(ExecutionStrategy::EmbeddedLibrary);
    proof {
        assert(plan@ =~= seq![ExecutionStrategy::EmbeddedLibrary]);
    }
    plan
}

/// The strategy order of `clone`: the external client only.
pub fn clone_strategies() -> (plan: Vec<ExecutionStrategy>)
    ensures
        plan@ == seq![ExecutionStrategy::ExternalCli],
{
    let mut plan: Vec<ExecutionStrategy> = Vec::new();
    plan.push(ExecutionStrategy::ExternalCli);
    proof {
        assert(plan@ =~= seq![ExecutionStrategy::ExternalCli]);
    }
    plan
}

/// The external client's pull command for the target directory.
pub fn git_pull_request(path: &str) -> (r: CommandRequest)
    ensures
        r.program@ == "git"@,
        r.args@.map_values(|a: String| a@) == seq!["pull"@],
        r.cwd@ == path@,
{
    let mut args: Vec<String> = Vec::new();
    args.push(String::from_str("pull"));
    proof {
        assert(args@.map_values(|a: String| a@) =~= seq!["pull"@]);
    }
    CommandRequest { program: String::from_str("git"), args, cwd: String::from_str(path) }
}

/// The external client's push command for the target directory.
pub fn git_push_request(path: &str) -> (r: CommandRequest)
    ensures
        r.program@ == "git"@,
        r.args@.map_values(|a: String| a@) == seq!["push"@],
        r.cwd@ == path@,
{
    let mut args: Vec<String> = Vec::new();
    args.push(String::from_str("push"));
    proof {
        assert(args@.map_values(|a: String| a@) =~= seq!["push"@]);
    }
    CommandRequest { program: String::from_str("git"), args, cwd: String::from_str(path) }
}

/// The success text of a completed external transfer: the trimmed output,
/// or the canned up-to-date message when the output is blank.
pub open spec fn transfer_success_text(out: Seq<char>) -> Seq<char> {
    if trimmed(out).len() == 0 {
        "Already up to date."@
    } else {
        trimmed(out)
    }
}

/// Reads the external client's outcome for `pull` or `push`: a successful
/// exit concludes the operation with its trimmed output (or the canned
/// up-to-date message); any other outcome sends the engine to the fallback.
pub fn cli_transfer_result(outcome: &ProcessOutcome) -> (r: Option<String>)
    ensures
        outcome_succeeded(*outcome) ==> (r matches Some(m) && m@ == transfer_success_text(
            outcome_stdout(*outcome),
        )),
        !outcome_succeeded(*outcome) ==> r is None,
{
    match outcome {
        ProcessOutcome::Completed { success, stdout, .. } => {
            if *success {
                let t = trim_str(stdout.as_str());
                if t.as_str().unicode_len() == 0 {
                    Some(String::from_str("Already up to date."))
                } else {
                    Some(t)
                }
            } else {
                None
            }
        },
        ProcessOutcome::LaunchFailed { .. } => None,
    }
}

/// Concludes a two-tier operation: a first-tier success is final, and
/// otherwise the fallback's outcome is final — the fallback is consulted
/// exactly once and nothing is retried.
pub fn conclude_two_tier(tier1: Option<String>, tier2: Result<String, VcsFailure>) -> (r: Result<
    String,
    VcsFailure,
>)
    ensures
        tier1 matches Some(m) ==> (r matches Ok(o) && o == m),
        tier1 is None ==> r == tier2,
{
    match tier1 {
        Some(m) => Ok(m),
        None => tier2,
    }
}

/// The remote name configured for the current branch: the third segment of
/// its upstream tracking reference (`refs/remotes/<remote>/...`), or the
/// fixed conventional name `origin` when there is no upstream or the
/// reference has another shape.
pub open spec fn remote_of_upstream(upstream: Option<Seq<char>>) -> Seq<char> {
    match upstream {
        Option::None => "origin"@,
        Option::Some(u) => {
            let parts = split_char(u, '/');
            if parts.len() >= 3 && parts[0] == "refs"@ && parts[1] == "remotes"@ && parts[2].len()
                > 0 {
                parts[2]
            } else {
                "origin"@
            }
        },
    }
}

/// Resolves the remote for the current branch from its upstream reference.
pub fn remote_for_branch(upstream: Option<&String>) -> (r: String)
    ensures
        r@ == remote_of_upstream(
            match upstream {
                Option::None => Option::None,
                Option::Some(u) => Option::Some(u@),
            },
        ),
{
    match upstream {
        None => String::from_str("origin"),
        Some(u) => {
            let parts = split_str(u.as_str(), '/');
            if parts.len() >= 3 {
                let head_ok = str_eq(parts[0].as_str(), "refs");
                let kind_ok = str_eq(parts[1].as_str(), "remotes");
                let name_len: usize = parts[2].as_str().unicode_len();
                proof {
                    assert(parts@.map_values(|p: String| p@)[0] == parts@[0]@);
                    assert(parts@.map_values(|p: String| p@)[1] == parts@[1]@);
                    assert(parts@.map_values(|p: String| p@)[2] == parts@[2]@);
                }
                if head_ok && kind_ok && name_len > 0 {
                    parts[2].clone()
                } else {
                    String::from_str("origin")
                }
            } else {
                String::from_str("origin")
            }
        },
    }
}

/// The same-named refspec under which the current branch is pushed.
pub fn push_refspec(branch: &str) -> (r: String)
    ensures
        r@ == "refs/heads/"@ + branch@ + ":refs/heads/"@ + branch@,
{
    let mut r = String::from_str("refs/heads/");
    r.append(branch);
    r.append(":refs/heads/");
    r.append(branch);
    r
}

/// Decides the fast-forward-only fallback pull once the branch's remote
/// commit is fetched: an identical commit is already up to date, a head
/// that is an ancestor of the fetched commit is fast-forwarded, and any
/// other relation is a divergence — the operation aborts rather than
/// attempt a merge.
pub fn fast_forward_decision(local_head: &str, fetched: &str, head_is_ancestor: bool) -> (r: Result<
    String,
    VcsFailure,
>)
    ensures
        local_head@ == fetched@ ==> (r matches Ok(m) && m@ == "Already up to date."@),
        local_head@ != fetched@ && head_is_ancestor ==> (r matches Ok(m) && m@
            == "Fast-forwarded to the fetched commit."@),
        local_head@ != fetched@ && !head_is_ancestor ==> failed_with(r, FailureKind::Divergence),
{
    if str_eq(local_head, fetched) {
        Ok(String::from_str("Already up to date."))
    } else if head_is_ancestor {
        Ok(String::from_str("Fast-forwarded to the fetched commit."))
    } else {
        Err(
            VcsFailure::new(
                FailureKind::Divergence,
                String::from_str(
                    "histories have diverged; the fast-forward-only fallback cannot apply them",
                ),
            ),
        )
    }
}

/// Reports the failure of the embedded-library fallback of `pull` or
/// `push`.  The diagnostic keeps its classification; an authentication
/// failure is replaced by the terminal credential-chain failure, whose
/// message names the remote URL and carries the guidance text.
pub fn fallback_network_failure(url: &str, diagnostic: &str) -> (f: VcsFailure)
    ensures
        f.kind == classify_text(diagnostic@),
        classify_text(diagnostic@) == FailureKind::Authentication ==> contains_sub(
            f.message@,
            url@,
        ) && contains_sub(f.message@, auth_guidance_text()),
        classify_text(diagnostic@) != FailureKind::Authentication ==> f.message@ == diagnostic@,
{
    let kind = classify_failure_text(diagnostic);
    match kind {
        FailureKind::Authentication => {
            let f = exhausted_chain_failure(url);
            VcsFailure::new(FailureKind::Authentication, f.message)
        },
        _ => VcsFailure::new(kind, String::from_str(diagnostic)),
    }
}

/// What the commit decision yields before the host writes anything: a
/// failure category, or nothing when the commit may proceed.
pub open spec fn commit_decision_spec(
    message: Seq<char>,
    new_tree: Seq<char>,
    head_tree: Seq<char>,
) -> Option<FailureKind> {
    if message.len() == 0 {
        Some(FailureKind::Validation)
    } else if new_tree == head_tree {
        Some(FailureKind::NoChanges)
    } else {
        None
    }
}

/// Decides a commit after the working tree is staged: an empty message is
/// rejected before anything runs, a staged tree identical to the head's
/// tree is the benign no-changes condition, and otherwise the host may
/// write the commit with the current head as sole parent.
pub fn commit_decision(message: &str, new_tree: &str, head_tree: &str) -> (r: Result<
    (),
    VcsFailure,
>)
    ensures
        r is Ok <==> commit_decision_spec(message@, new_tree@, head_tree@) is None,
        r matches Err(e) ==> commit_decision_spec(message@, new_tree@, head_tree@) == Some(e.kind),
{
    if message.unicode_len() == 0 {
        Err(
            VcsFailure::new(
                FailureKind::Validation,
                String::from_str("commit message must not be empty"),
            ),
        )
    } else if str_eq(new_tree, head_tree) {
        Err(
            VcsFailure::new(FailureKind::NoChanges, String::from_str("nothing to commit")),
        )
    } else {
        Ok(())
    }
}

/// Committing twice with no intervening working-tree change: a first
/// commit that proceeds makes the staged tree the new head tree, so a
/// second decision over the unchanged working tree always yields the
/// benign `NoChanges` outcome, never a second commit.
pub proof fn lemma_second_commit_no_changes(
    message: Seq<char>,
    second_message: Seq<char>,
    staged_tree: Seq<char>,
    head_tree: Seq<char>,
)
    requires
        second_message.len() > 0,
        commit_decision_spec(message, staged_tree, head_tree) is None,
    ensures
        commit_decision_spec(second_message, staged_tree, staged_tree) == Some(
            FailureKind::NoChanges,
        ),
{
}

/// Validates a clone request: both the remote URL and the target path must
/// be non-empty before any process is invoked; a valid request is the
/// external client's clone command.
pub fn clone_request(url: &str, target: &str) -> (r: Result<CommandRequest, VcsFailure>)
    ensures
        (url@.len() == 0 || target@.len() == 0) <==> failed_with(r, FailureKind::Validation),
        r matches Ok(c) ==> c.program@ == "git"@ && c.args@.map_values(|a: String| a@)
            == seq!["clone"@, url@, target@] && c.cwd@ == "."@,
{
    if url.unicode_len() == 0 || target.unicode_len() == 0 {
        return Err(
            VcsFailure::new(
                FailureKind::Validation,
                String::from_str("clone needs a non-empty URL and a non-empty target path"),
            ),
        );
    }
    let mut args: Vec<String> = Vec::new();
    args.push(String::from_str("clone"));
    args.push(String::from_str(url));
    args.push(String::from_str(target));
    proof {
        assert(args@.map_values(|a: String| a@) =~= seq!["clone"@, url@, target@]);
    }
    Ok(CommandRequest { program: String::from_str("git"), args, cwd: String::from_str(".") })
}

/// The diff sentinel: an empty concatenated diff text reads as the canned
/// no-changes message, any other text is returned verbatim.
pub fn diff_result(text: String) -> (r: String)
    ensures
        text@.len() == 0 ==> r@ == "No changes."@,
        text@.len() > 0 ==> r@ == text@,
{
    if text.as_str().unicode_len() == 0 {
        String::from_str("No changes.")
    } else {
        text
    }
}

/// Builds the status outcome of the distributed backend.  A path with no
/// repository fails with `NotARepository` and changes nothing; otherwise
/// the porcelain text decides the modified and untracked lists, and
/// `is_dirty` is their disjunction.  Ahead/behind stay uncomputed.
pub fn repository_status_outcome(
    repo_found: bool,
    branch: Option<String>,
    head_revision: Option<String>,
    porcelain: &str,
) -> (r: Result<RepositoryStatus, VcsFailure>)
    ensures
        !repo_found ==> failed_with(r, FailureKind::NotARepository),
        repo_found ==> (r matches Ok(s) && s.branch == branch && s.head_revision == head_revision
            && s.modified@.map_values(|p: String| p@) == porcelain_modified(porcelain@)
            && s.untracked@.map_values(|p: String| p@) == porcelain_untracked(porcelain@)
            && s.is_dirty == (porcelain_modified(porcelain@).len() > 0 || porcelain_untracked(
            porcelain@,
        ).len() > 0) && s.ahead is None && s.behind is None && repository_status_wf(s)),
{
    if !repo_found {
        return Err(
            VcsFailure::new(
                FailureKind::NotARepository,
                String::from_str("not a git repository"),
            ),
        );
    }
    let (modified, untracked) = parse_porcelain_status(porcelain);
    proof {
        assert(modified@.map_values(|p: String| p@).len() == modified@.len());
        assert(untracked@.map_values(|p: String| p@).len() == untracked@.len());
    }
    Ok(build_repository_status(branch, head_revision, modified, untracked))
}

/// The report of the authentication test: names the classified scheme of
/// the remote URL and whether the lightweight fetch through the credential
/// chain succeeded.
pub fn auth_test_report(url: &str, fetch_ok: bool) -> (r: String)
    ensures
        fetch_ok ==> r@ == "Authentication test succeeded for '"@ + url@ + "' (scheme: "@
            + scheme_text(scheme_of(url@)) + ")"@,
        !fetch_ok ==> r@ == "Authentication test failed for '"@ + url@ + "' (scheme: "@
            + scheme_text(scheme_of(url@)) + ")"@,
{
    let scheme = classify_url_scheme(url);
    let mut r = if fetch_ok {
        String::from_str("Authentication test succeeded for '")
    } else {
        String::from_str("Authentication test failed for '")
    };
    r.append(url);
    r.append("' (scheme: ");
    let name = match scheme {
        UrlScheme::Ssh => String::from_str("ssh"),
        UrlScheme::Https => String::from_str("https"),
        UrlScheme::Unknown => String::from_str("unknown"),
    };
    r.append(name.as_str());
    r.append(")");
    r
}

/// The display text of a URL scheme.
pub open spec fn scheme_text(s: UrlScheme) -> Seq<char> {
    match s {
        UrlScheme::Ssh => "ssh"@,
        UrlScheme::Https => "https"@,
        UrlScheme::Unknown => "unknown"@,
    }
}

/// Picks the remote for the authentication test: the primary conventional
/// name when the repository has it, the secondary one otherwise, and a
/// failure when it has neither.
pub fn choose_remote(remotes: &Vec<String>) -> (r: Result<String, VcsFailure>)
    ensures
        (exists|i: int| 0 <= i < remotes@.len() && remotes@[i]@ == "origin"@) ==> (r matches Ok(m)
            && m@ == "origin"@),
        !(exists|i: int| 0 <= i < remotes@.len() && remotes@[i]@ == "origin"@) && (exists|i: int|
            0 <= i < remotes@.len() && remotes@[i]@ == "upstream"@) ==> (r matches Ok(m) && m@
            == "upstream"@),
        !(exists|i: int| 0 <= i < remotes@.len() && (remotes@[i]@ == "origin"@ || remotes@[i]@
            == "upstream"@)) ==> failed_with(r, FailureKind::NotARepository),
{
    if contains_name(remotes, "origin") {
        Ok(String::from_str("origin"))
    } else if contains_name(remotes, "upstream") {
        Ok(String::from_str("upstream"))
    } else {
        Err(
            VcsFailure::new(
                FailureKind::NotARepository,
                String::from_str("no conventional remote is configured"),
            ),
        )
    }
}

/// Whether one of the strings equals `name`.
fn contains_name(items: &Vec<String>, name: &str) -> (b: bool)
    ensures
        b == exists|i: int| 0 <= i < items@.len() && items@[i]@ == name@,
{
    let mut i: usize = 0;
    while i < items.len()
        invariant
            0 <= i <= items@.len(),
            forall|j: int| 0 <= j < i ==> items@[j]@ != name@,
        decreases items@.len() - i,
    {
        if str_eq(items[i].as_str(), name) {
            return true;
        }
        i += 1;
    }
    false
}

/// One line of a computed difference.
#[derive(Clone, Debug)]
pub struct DiffLine {
    pub kind: DiffLineKind,
    pub text: String,
}

/// The role of one difference line.
#[derive(PartialEq, Eq, Structural, Clone, Copy, Debug)]
pub enum DiffLineKind {
    /// A per-file header.
    FileHeader,
    /// A line present only in the working tree.
    Added,
    /// A line present only in the head tree.
    Removed,
    /// An unchanged line shown for context.
    Context,
}

/// The marker prepended to a difference line of the given role.
pub open spec fn diff_marker(k: DiffLineKind) -> Seq<char> {
    match k {
        DiffLineKind::FileHeader => "--- "@,
        DiffLineKind::Added => "+"@,
        DiffLineKind::Removed => "-"@,
        DiffLineKind::Context => " "@,
    }
}

/// The rendering of a sequence of difference lines: each line is its
/// marker, its text, and a newline, concatenated in order.
pub open spec fn rendered_diff(lines: Seq<DiffLine>) -> Seq<char>
    decreases lines.len(),
{
    if lines.len() == 0 {
        Seq::<char>::empty()
    } else {
        rendered_diff(lines.drop_last()) + diff_marker(lines.last().kind) + lines.last().text@
            + "\n"@
    }
}

/// Concatenates the difference lines handed back by the tree walk into the
/// single text block that `diff` returns.
pub fn render_diff(lines: &Vec<DiffLine>) -> (r: String)
    ensures
        r@ == rendered_diff(lines@),
{
    let mut r = String::new();
    let mut i: usize = 0;
    while i < lines.len()
        invariant
            0 <= i <= lines@.len(),
            r@ == rendered_diff(lines@.take(i as int)),
        decreases lines@.len() - i,
    {
        proof {
            assert(lines@.take(i + 1).drop_last() =~= lines@.take(i as int));
            assert(lines@.take(i + 1).last() == lines@[i as int]);
        }
        match lines[i].kind {
            DiffLineKind::FileHeader => r.append("--- "),
            DiffLineKind::Added => r.append("+"),
            DiffLineKind::Removed => r.append("-"),
            DiffLineKind::Context => r.append(" "),
        }
        r.append(lines[i].text.as_str());
        r.append("\n");
        i += 1;
    }
    proof {
        assert(lines@.take(lines@.len() as int) =~= lines@);
    }
    r
}

} // verus!
