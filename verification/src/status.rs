//! Status records and the status parser.  Both backends report working-tree
//! state as porcelain-ish text or as enumerated entries; this module turns
//! either into a normalized record.  The two backends have structurally
//! distinct record types, and for both, `is_dirty` is by construction the
//! disjunction of a non-empty modified list and a non-empty untracked list.

use vstd::prelude::*;
use crate::text::{lines_of, starts_with, split_lines, strip_prefix_str};

verus! {

/// A normalized status record of the distributed backend.
#[derive(Clone, Debug)]
pub struct RepositoryStatus {
    pub branch: Option<String>,
    pub head_revision: Option<String>,
    pub modified: Vec<String>,
    pub untracked: Vec<String>,
    pub is_dirty: bool,
    /// Commits ahead of upstream; absent when not computed.
    pub ahead: Option<u64>,
    /// Commits behind upstream; absent when not computed.
    pub behind: Option<u64>,
}

/// `is_dirty` agrees with the lists it is derived from.
pub open spec fn repository_status_wf(s: RepositoryStatus) -> bool {
    s.is_dirty == (s.modified@.len() > 0 || s.untracked@.len() > 0)
}

/// A normalized status record of the centralized backend.
#[derive(Clone, Debug)]
pub struct WorkingCopyStatus {
    pub revision: Option<String>,
    pub url: Option<String>,
    pub repository_root: Option<String>,
    pub author: Option<String>,
    pub date: Option<String>,
    pub modified: Vec<String>,
    pub untracked: Vec<String>,
    pub is_dirty: bool,
}

/// `is_dirty` agrees with the lists it is derived from.
pub open spec fn working_copy_status_wf(s: WorkingCopyStatus) -> bool {
    s.is_dirty == (s.modified@.len() > 0 || s.untracked@.len() > 0)
}

/// How one status line of the distributed backend's porcelain output is
/// classified.  A porcelain line is two state characters, a space, and the
/// path; untracked entries are marked `??`, ignored entries `!!`, and every
/// other reported entry counts as modified.
pub open spec fn porcelain_line_kind(l: Seq<char>) -> LineKind {
    if l.len() < 4 {
        LineKind::Skipped
    } else if l[0] == '?' && l[1] == '?' {
        LineKind::Untracked
    } else if l[0] == '!' && l[1] == '!' {
        LineKind::Skipped
    } else {
        LineKind::Modified
    }
}

/// The path of a porcelain status line.
pub open spec fn porcelain_line_path(l: Seq<char>) -> Seq<char> {
    l.subrange(3, l.len() as int)
}

/// The classification of one status line.
#[derive(PartialEq, Eq, Structural, Clone, Copy, Debug)]
pub enum LineKind {
    Modified,
    Untracked,
    Skipped,
}

/// The paths of the lines of the given kind, in order.
pub open spec fn lines_with_kind(
    lines: Seq<Seq<char>>,
    kind: LineKind,
    classify: spec_fn(Seq<char>) -> LineKind,
    path_of: spec_fn(Seq<char>) -> Seq<char>,
) -> Seq<Seq<char>>
    decreases lines.len(),
{
    if lines.len() == 0 {
        Seq::<Seq<char>>::empty()
    } else {
        let rest = lines_with_kind(lines.drop_last(), kind, classify, path_of);
        if classify(lines.last()) == kind {
            rest.push(path_of(lines.last()))
        } else {
            rest
        }
    }
}

/// The modified paths of a porcelain status text.
pub open spec fn porcelain_modified(text: Seq<char>) -> Seq<Seq<char>> {
    lines_with_kind(
        lines_of(text),
        LineKind::Modified,
        |l: Seq<char>| porcelain_line_kind(l),
        |l: Seq<char>| porcelain_line_path(l),
    )
}

/// The untracked paths of a porcelain status text.
pub open spec fn porcelain_untracked(text: Seq<char>) -> Seq<Seq<char>> {
    lines_with_kind(
        lines_of(text),
        LineKind::Untracked,
        |l: Seq<char>| porcelain_line_kind(l),
        |l: Seq<char>| porcelain_line_path(l),
    )
}

/// Classifies one porcelain line.
fn porcelain_classify(line: &str) -> (k: LineKind)
    ensures
        k == porcelain_line_kind(line@),
{
    let len: usize = line.unicode_len();
    if len < 4 {
        LineKind::Skipped
    } else if line.get_char(0) == '?' && line.get_char(1) == '?' {
        LineKind::Untracked
    } else if line.get_char(0) == '!' && line.get_char(1) == '!' {
        LineKind::Skipped
    } else {
        LineKind::Modified
    }
}

/// Parses a porcelain status text into its modified and untracked paths.
pub fn parse_porcelain_status(text: &str) -> (r: (Vec<String>, Vec<String>))
    ensures
        r.0@.map_values(|p: String| p@) == porcelain_modified(text@),
        r.1@.map_values(|p: String| p@) == porcelain_untracked(text@),
{
    let lines = split_lines(text);
    let ghost line_views = lines@.map_values(|p: String| p@);
    let ghost classify = |l: Seq<char>| porcelain_line_kind(l);
    let ghost path_of = |l: Seq<char>| porcelain_line_path(l);
    let mut modified: Vec<String> = Vec::new();
    let mut untracked: Vec<String> = Vec::new();
    let mut i: usize = 0;
    while i < lines.len()
        invariant
            line_views == lines@.map_values(|p: String| p@),
            classify == (|l: Seq<char>| porcelain_line_kind(l)),
            path_of == (|l: Seq<char>| porcelain_line_path(l)),
            0 <= i <= lines@.len(),
            modified@.map_values(|p: String| p@) == lines_with_kind(
                line_views.take(i as int),
                LineKind::Modified,
                classify,
                path_of,
            ),
            untracked@.map_values(|p: String| p@) == lines_with_kind(
                line_views.take(i as int),
                LineKind::Untracked,
                classify,
                path_of,
            ),
        decreases lines@.len() - i,
    {
        let line = &lines[i];
        let kind = porcelain_classify(line.as_str());
        let ghost mod_prev = modified@;
        let ghost untr_prev = untracked@;
        proof {
            assert(line_views.take(i + 1).drop_last() =~= line_views.take(i as int));
            assert(line_views.take(i + 1).last() == line@);
        }
        match kind {
            LineKind::Modified => {
                let len: usize = line.as_str().unicode_len();
                let path = line.as_str().substring_char(3, len);
                modified.push(String::from_str(path));
                proof {
                    assert(modified@.map_values(|p: String| p@) =~~= mod_prev.map_values(
                        |p: String| p@,
                    ) + seq![porcelain_line_path(line@)]);
                }
            },
            LineKind::Untracked => {
                let len: usize = line.as_str().unicode_len();
                let path = line.as_str().substring_char(3, len);
                untracked.push(String::from_str(path));
                proof {
                    assert(untracked@.map_values(|p: String| p@) =~~= untr_prev.map_values(
                        |p: String| p@,
                    ) + seq![porcelain_line_path(line@)]);
                }
            },
            LineKind::Skipped => {},
        }
        i += 1;
    }
    proof {
        assert(line_views.take(line_views.len() as int) =~= line_views);
    }
    (modified, untracked)
}

/// The state of one working-tree entry as the embedded library reports
/// it when it enumerates the working tree.
#[derive(PartialEq, Eq, Structural, Clone, Copy, Debug)]
pub enum EntryState {
    /// Unchanged against the head; skipped in the summary.
    Current,
    /// Never tracked; listed as untracked.
    New,
    Modified,
    Deleted,
    Renamed,
    TypeChange,
    Conflicted,
}

/// One enumerated working-tree entry.
#[derive(Clone, Debug)]
pub struct StatusEntry {
    pub state: EntryState,
    pub path: String,
}

/// How an enumerated entry is classified: current entries are skipped,
/// new ones are untracked, and every other state collapses into modified
/// for this summary.
pub open spec fn entry_kind(st: EntryState) -> LineKind {
    match st {
        EntryState::Current => LineKind::Skipped,
        EntryState::New => LineKind::Untracked,
        _ => LineKind::Modified,
    }
}

/// The paths of the entries of the given kind, in order.
pub open spec fn entries_with_kind(entries: Seq<StatusEntry>, kind: LineKind) -> Seq<Seq<char>>
    decreases entries.len(),
{
    if entries.len() == 0 {
        Seq::<Seq<char>>::empty()
    } else {
        let rest = entries_with_kind(entries.drop_last(), kind);
        if entry_kind(entries.last().state) == kind {
            rest.push(entries.last().path@)
        } else {
            rest
        }
    }
}

/// Exec twin of `entry_kind`.
pub fn classify_entry(st: EntryState) -> (k: LineKind)
    ensures
        k == entry_kind(st),
{
    match st {
        EntryState::Current => LineKind::Skipped,
        EntryState::New => LineKind::Untracked,
        _ => LineKind::Modified,
    }
}

/// Summarizes the entries the embedded library enumerated into the
/// modified and untracked path lists.
pub fn summarize_entries(entries: &Vec<StatusEntry>) -> (r: (Vec<String>, Vec<String>))
    ensures
        r.0@.map_values(|p: String| p@) == entries_with_kind(entries@, LineKind::Modified),
        r.1@.map_values(|p: String| p@) == entries_with_kind(entries@, LineKind::Untracked),
{
    let mut modified: Vec<String> = Vec::new();
    let mut untracked: Vec<String> = Vec::new();
    let mut i: usize = 0;
    while i < entries.len()
        invariant
            0 <= i <= entries@.len(),
            modified@.map_values(|p: String| p@) == entries_with_kind(
                entries@.take(i as int),
                LineKind::Modified,
            ),
            untracked@.map_values(|p: String| p@) == entries_with_kind(
                entries@.take(i as int),
                LineKind::Untracked,
            ),
        decreases entries@.len() - i,
    {
        let entry = &entries[i];
        let kind = classify_entry(entry.state);
        let ghost mod_prev = modified@;
        let ghost untr_prev = untracked@;
        proof {
            assert(entries@.take(i + 1).drop_last() =~= entries@.take(i as int));
            assert(entries@.take(i + 1).last() == entries@[i as int]);
        }
        match kind {
            LineKind::Modified => {
                modified.push(entry.path.clone());
                proof {
                    assert(modified@.map_values(|p: String| p@) =~~= mod_prev.map_values(
                        |p: String| p@,
                    ) + seq![entry.path@]);
                }
            },
            LineKind::Untracked => {
                untracked.push(entry.path.clone());
                proof {
                    assert(untracked@.map_values(|p: String| p@) =~~= untr_prev.map_values(
                        |p: String| p@,
                    ) + seq![entry.path@]);
                }
            },
            LineKind::Skipped => {},
        }
        i += 1;
    }
    proof {
        assert(entries@.take(entries@.len() as int) =~= entries@);
    }
    (modified, untracked)
}

/// How one status line of the centralized backend's CLI output is
/// classified: the leading status character decides, and the path stands
/// at the CLI's fixed column offset of eight.  Modify, add, delete and
/// replace count as modified; the unversioned marker as untracked; every
/// other leading character is ignored.
pub open spec fn cli_status_line_kind(l: Seq<char>) -> LineKind {
    if l.len() < 9 {
        LineKind::Skipped
    } else if l[0] == 'M' || l[0] == 'A' || l[0] == 'D' || l[0] == 'R' {
        LineKind::Modified
    } else if l[0] == '?' {
        LineKind::Untracked
    } else {
        LineKind::Skipped
    }
}

/// The path of a centralized-backend status line.
pub open spec fn cli_status_line_path(l: Seq<char>) -> Seq<char> {
    l.subrange(8, l.len() as int)
}

/// The modified paths of a centralized-backend status text.
pub open spec fn cli_status_modified(text: Seq<char>) -> Seq<Seq<char>> {
    lines_with_kind(
        lines_of(text),
        LineKind::Modified,
        |l: Seq<char>| cli_status_line_kind(l),
        |l: Seq<char>| cli_status_line_path(l),
    )
}

/// The untracked paths of a centralized-backend status text.
pub open spec fn cli_status_untracked(text: Seq<char>) -> Seq<Seq<char>> {
    lines_with_kind(
        lines_of(text),
        LineKind::Untracked,
        |l: Seq<char>| cli_status_line_kind(l),
        |l: Seq<char>| cli_status_line_path(l),
    )
}

/// Classifies one centralized-backend status line.
fn cli_status_classify(line: &str) -> (k: LineKind)
    ensures
        k == cli_status_line_kind(line@),
{
    let len: usize = line.unicode_len();
    if len < 9 {
        LineKind::Skipped
    } else {
        let c = line.get_char(0);
        if c == 'M' || c == 'A' || c == 'D' || c == 'R' {
            LineKind::Modified
        } else if c == '?' {
            LineKind::Untracked
        } else {
            LineKind::Skipped
        }
    }
}

/// Parses a centralized-backend status text into its modified and
/// untracked paths.
pub fn parse_cli_status(text: &str) -> (r: (Vec<String>, Vec<String>))
    ensures
        r.0@.map_values(|p: String| p@) == cli_status_modified(text@),
        r.1@.map_values(|p: String| p@) == cli_status_untracked(text@),
{
    let lines = split_lines(text);
    let ghost line_views = lines@.map_values(|p: String| p@);
    let ghost classify = |l: Seq<char>| cli_status_line_kind(l);
    let ghost path_of = |l: Seq<char>| cli_status_line_path(l);
    let mut modified: Vec<String> = Vec::new();
    let mut untracked: Vec<String> = Vec::new();
    let mut i: usize = 0;
    while i < lines.len()
        invariant
            line_views == lines@.map_values(|p: String| p@),
            classify == (|l: Seq<char>| cli_status_line_kind(l)),
            path_of == (|l: Seq<char>| cli_status_line_path(l)),
            0 <= i <= lines@.len(),
            modified@.map_values(|p: String| p@) == lines_with_kind(
                line_views.take(i as int),
                LineKind::Modified,
                classify,
                path_of,
            ),
            untracked@.map_values(|p: String| p@) == lines_with_kind(
                line_views.take(i as int),
                LineKind::Untracked,
                classify,
                path_of,
            ),
        decreases lines@.len() - i,
    {
        let line = &lines[i];
        let kind = cli_status_classify(line.as_str());
        let ghost mod_prev = modified@;
        let ghost untr_prev = untracked@;
        proof {
            assert(line_views.take(i + 1).drop_last() =~= line_views.take(i as int));
            assert(line_views.take(i + 1).last() == line@);
        }
        match kind {
            LineKind::Modified => {
                let len: usize = line.as_str().unicode_len();
                let path = line.as_str().substring_char(8, len);
                modified.push(String::from_str(path));
                proof {
                    assert(modified@.map_values(|p: String| p@) =~~= mod_prev.map_values(
                        |p: String| p@,
                    ) + seq![cli_status_line_path(line@)]);
                }
            },
            LineKind::Untracked => {
                let len: usize = line.as_str().unicode_len();
                let path = line.as_str().substring_char(8, len);
                untracked.push(String::from_str(path));
                proof {
                    assert(untracked@.map_values(|p: String| p@) =~~= untr_prev.map_values(
                        |p: String| p@,
                    ) + seq![cli_status_line_path(line@)]);
                }
            },
            LineKind::Skipped => {},
        }
        i += 1;
    }
    proof {
        assert(line_views.take(line_views.len() as int) =~= line_views);
    }
    (modified, untracked)
}

/// The rest of the first line carrying the given prefix, if any line does.
pub open spec fn first_with_prefix(lines: Seq<Seq<char>>, prefix: Seq<char>) -> Option<Seq<char>>
    decreases lines.len(),
{
    if lines.len() == 0 {
        None
    } else if starts_with(lines[0], prefix) {
        Some(lines[0].subrange(prefix.len() as int, lines[0].len() as int))
    } else {
        first_with_prefix(lines.drop_first(), prefix)
    }
}

/// Scans the lines for the first one carrying the given prefix and yields
/// what follows the prefix on that line.
pub fn find_prefixed(lines: &Vec<String>, prefix: &str) -> (r: Option<String>)
    ensures
        r.deep_view() == first_with_prefix(lines@.map_values(|p: String| p@), prefix@),
{
    let ghost line_views = lines@.map_values(|p: String| p@);
    let mut i: usize = 0;
    proof {
        assert(line_views.skip(0) =~= line_views);
    }
    while i < lines.len()
        invariant
            line_views == lines@.map_values(|p: String| p@),
            0 <= i <= lines@.len(),
            first_with_prefix(line_views, prefix@) == first_with_prefix(
                line_views.skip(i as int),
                prefix@,
            ),
        decreases lines@.len() - i,
    {
        proof {
            assert(line_views.skip(i as int)[0] == line_views[i as int]);
            assert(line_views.skip(i as int).drop_first() =~= line_views.skip(i + 1));
        }
        match strip_prefix_str(lines[i].as_str(), prefix) {
            Some(rest) => {
                return Some(rest);
            },
            None => {},
        }
        i += 1;
    }
    proof {
        assert(line_views.skip(line_views.len() as int) =~= Seq::<Seq<char>>::empty());
    }
    None
}

/// The line-prefix markers of the centralized backend's `info` output.
pub struct WorkingCopyInfo {
    pub revision: Option<String>,
    pub url: Option<String>,
    pub repository_root: Option<String>,
    pub author: Option<String>,
    pub date: Option<String>,
}

/// Parses the centralized backend's `info` output by line-prefix matching.
pub fn parse_cli_info(text: &str) -> (info: WorkingCopyInfo)
    ensures
        info.revision.deep_view() == first_with_prefix(lines_of(text@), "Revision: "@),
        info.url.deep_view() == first_with_prefix(lines_of(text@), "URL: "@),
        info.repository_root.deep_view() == first_with_prefix(
            lines_of(text@),
            "Repository Root: "@,
        ),
        info.author.deep_view() == first_with_prefix(lines_of(text@), "Last Changed Author: "@),
        info.date.deep_view() == first_with_prefix(lines_of(text@), "Last Changed Date: "@),
{
    let lines = split_lines(text);
    let revision = find_prefixed(&lines, "Revision: ");
    let url = find_prefixed(&lines, "URL: ");
    let repository_root = find_prefixed(&lines, "Repository Root: ");
    let author = find_prefixed(&lines, "Last Changed Author: ");
    let date = find_prefixed(&lines, "Last Changed Date: ");
    WorkingCopyInfo { revision, url, repository_root, author, date }
}

/// Builds the centralized backend's status record; `is_dirty` is derived.
pub fn build_working_copy_status(
    info: WorkingCopyInfo,
    modified: Vec<String>,
    untracked: Vec<String>,
) -> (s: WorkingCopyStatus)
    ensures
        s.revision == info.revision,
        s.url == info.url,
        s.repository_root == info.repository_root,
        s.author == info.author,
        s.date == info.date,
        s.modified == modified,
        s.untracked == untracked,
        s.is_dirty == (modified@.len() > 0 || untracked@.len() > 0),
        working_copy_status_wf(s),
{
    let is_dirty = modified.len() > 0 || untracked.len() > 0;
    WorkingCopyStatus {
        revision: info.revision,
        url: info.url,
        repository_root: info.repository_root,
        author: info.author,
        date: info.date,
        modified,
        untracked,
        is_dirty,
    }
}

/// Builds the distributed backend's status record.  `is_dirty` is derived;
/// ahead/behind are left uncomputed, the accepted simplification.
pub fn build_repository_status(
    branch: Option<String>,
    head_revision: Option<String>,
    modified: Vec<String>,
    untracked: Vec<String>,
) -> (s: RepositoryStatus)
    ensures
        s.branch == branch,
        s.head_revision == head_revision,
        s.modified == modified,
        s.untracked == untracked,
        s.is_dirty == (modified@.len() > 0 || untracked@.len() > 0),
        s.ahead is None,
        s.behind is None,
        repository_status_wf(s),
{
    let is_dirty = modified.len() > 0 || untracked.len() > 0;
    RepositoryStatus {
        branch,
        head_revision,
        modified,
        untracked,
        is_dirty,
        ahead: None,
        behind: None,
    }
}

} // verus!
