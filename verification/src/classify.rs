//! Classification of opaque diagnostic text into coarse failure
//! categories.  Backends report failures as free text on standard error;
//! the engines need to know whether such text means an authentication
//! rejection, a missing repository, diverged histories, and so on.  The
//! classifier is a prioritized list of case-insensitive substring rules
//! with a terminal `Unknown` category; it is a documented best-effort
//! heuristic, not authoritative.

use vstd::prelude::*;
use crate::outcome::{FailureKind, VcsFailure};
use crate::text::{contains_at, contains_sub};

verus! {

/// ASCII lowercasing of one character; other characters pass through.
pub open spec fn lower_char(c: char) -> char {
    if 'A' <= c && c <= 'Z' {
        ((c as u32) + 32) as char
    } else {
        c
    }
}

/// ASCII lowercasing of a character sequence.
pub open spec fn lower_of(s: Seq<char>) -> Seq<char> {
    s.map_values(|c: char| lower_char(c))
}

/// Exec twin of `lower_char`.
pub fn lower_char_exec(c: char) -> (r: char)
    ensures
        r == lower_char(c),
{
    if 'A' <= c && c <= 'Z' {
        ((c as u8) + 32) as char
    } else {
        c
    }
}

/// The already-lowercase pattern `pat` occurs in the lowercasing of `s`.
pub open spec fn contains_ci(s: Seq<char>, pat: Seq<char>) -> bool {
    contains_sub(lower_of(s), pat)
}

/// Case-insensitive substring test: compares the lowercasing of `s`
/// against `pat` (which callers pass already lowercase).
pub fn contains_ci_str(s: &str, pat: &str) -> (b: bool)
    ensures
        b == contains_ci(s@, pat@),
{
    let s_len: usize = s.unicode_len();
    let pat_len: usize = pat.unicode_len();
    if pat_len > s_len {
        return false;
    }
    let end: usize = s_len - pat_len;
    let mut i: usize = 0;
    loop
        invariant
            s_len == s@.len(),
            pat_len == pat@.len(),
            pat_len <= s_len,
            end == s_len - pat_len,
            0 <= i <= end,
            forall|j: int| 0 <= j < i ==> !contains_at(lower_of(s@), pat@, j),
        ensures
            forall|j: int| 0 <= j <= end ==> !contains_at(lower_of(s@), pat@, j),
        decreases end - i,
    {
        let mut j: usize = 0;
        let mut all_match: bool = true;
        while j < pat_len
            invariant
                s_len == s@.len(),
                pat_len == pat@.len(),
                i + pat_len <= s_len,
                s@.len() <= usize::MAX,
                0 <= j <= pat_len,
                all_match == forall|k: int| 0 <= k < j ==> lower_of(s@)[i + k] == pat@[k],
            decreases pat_len - j,
        {
            if lower_char_exec(s.get_char(i + j)) != pat.get_char(j) {
                all_match = false;
                proof {
                    assert(lower_of(s@)[i + j] != pat@[j as int]);
                }
                j = pat_len;
            } else {
                j += 1;
            }
        }
        if all_match {
            proof {
                assert(lower_of(s@).len() == s@.len());
                assert(lower_of(s@).subrange(i as int, i + pat@.len()) =~= pat@);
                assert(contains_at(lower_of(s@), pat@, i as int));
            }
            return true;
        }
        proof {
            let ghost bad = choose|k: int|
                !(0 <= k < pat@.len() ==> lower_of(s@)[i + k] == pat@[k]);
            assert(lower_of(s@).subrange(i as int, i + pat@.len())[bad] != pat@[bad]);
        }
        if i == end {
            break;
        }
        i += 1;
    }
    assert forall|j: int| 0 <= j implies !contains_at(lower_of(s@), pat@, j) by {
        if j <= end {
        } else {
            assert(j + pat@.len() > lower_of(s@).len());
        }
    }
    false
}

/// The prioritized classification of a diagnostic text: the first matching
/// rule wins, and text matching no rule is `Unknown`.
pub open spec fn classify_text(s: Seq<char>) -> FailureKind {
    if contains_ci(s, "not a git repository"@) {
        FailureKind::NotARepository
    } else if contains_ci(s, "not a working copy"@) {
        FailureKind::NotAWorkingCopy
    } else if contains_ci(s, "auth"@) {
        FailureKind::Authentication
    } else if contains_ci(s, "401"@) {
        FailureKind::Authentication
    } else if contains_ci(s, "403"@) {
        FailureKind::Authentication
    } else if contains_ci(s, "permission denied"@) {
        FailureKind::Authentication
    } else if contains_ci(s, "access denied"@) {
        FailureKind::Authentication
    } else if contains_ci(s, "could not read username"@) {
        FailureKind::Authentication
    } else if contains_ci(s, "non-fast-forward"@) {
        FailureKind::Divergence
    } else if contains_ci(s, "diverged"@) {
        FailureKind::Divergence
    } else if contains_ci(s, "[rejected]"@) {
        FailureKind::Divergence
    } else if contains_ci(s, "nothing to commit"@) {
        FailureKind::NoChanges
    } else {
        FailureKind::Unknown
    }
}

/// Classifies a diagnostic text by the prioritized substring rules.
pub fn classify_failure_text(s: &str) -> (k: FailureKind)
    ensures
        k == classify_text(s@),
{
    if contains_ci_str(s, "not a git repository") {
        FailureKind::NotARepository
    } else if contains_ci_str(s, "not a working copy") {
        FailureKind::NotAWorkingCopy
    } else if contains_ci_str(s, "auth") {
        FailureKind::Authentication
    } else if contains_ci_str(s, "401") {
        FailureKind::Authentication
    } else if contains_ci_str(s, "403") {
        FailureKind::Authentication
    } else if contains_ci_str(s, "permission denied") {
        FailureKind::Authentication
    } else if contains_ci_str(s, "access denied") {
        FailureKind::Authentication
    } else if contains_ci_str(s, "could not read username") {
        FailureKind::Authentication
    } else if contains_ci_str(s, "non-fast-forward") {
        FailureKind::Divergence
    } else if contains_ci_str(s, "diverged") {
        FailureKind::Divergence
    } else if contains_ci_str(s, "[rejected]") {
        FailureKind::Divergence
    } else if contains_ci_str(s, "nothing to commit") {
        FailureKind::NoChanges
    } else {
        FailureKind::Unknown
    }
}

/// Classifies a diagnostic and keeps its text verbatim in the failure.
pub fn classified_failure(s: &str) -> (r: VcsFailure)
    ensures
        r.kind == classify_text(s@),
        r.message@ == s@,
{
    let kind = classify_failure_text(s);
    VcsFailure::new(kind, String::from_str(s))
}

} // verus!
