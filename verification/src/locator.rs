//! The working-copy locator.  Given an arbitrary path inside a working
//! copy, the centralized backend needs the working-copy root: the nearest
//! ancestor directory holding the backend's metadata directory.  The walk
//! over the real filesystem is the host's; the core computes the ancestor
//! chain of a path and decides, from the chain and the host's probe of each
//! entry, which ancestor is the root.

use vstd::prelude::*;
use crate::outcome::{FailureKind, VcsFailure, failed_with, ok_text};

verus! {

/// The index of the last occurrence of `c` in `s`, or -1 when absent.
pub open spec fn last_index_of(s: Seq<char>, c: char) -> int
    decreases s.len(),
{
    if s.len() == 0 {
        -1
    } else if s.last() == c {
        s.len() - 1
    } else {
        last_index_of(s.drop_last(), c)
    }
}

pub proof fn lemma_last_index_of(s: Seq<char>, c: char)
    ensures
        -1 <= last_index_of(s, c) < s.len(),
        last_index_of(s, c) >= 0 ==> s[last_index_of(s, c)] == c,
        forall|j: int| last_index_of(s, c) < j < s.len() ==> s[j] != c,
    decreases s.len(),
{
    if s.len() > 0 && s.last() != c {
        lemma_last_index_of(s.drop_last(), c);
        assert forall|j: int| last_index_of(s, c) < j < s.len() implies s[j] != c by {
            if j < s.len() - 1 {
                assert(s.drop_last()[j] == s[j]);
            }
        }
    }
}

/// The parent directory of a slash-separated path: the path up to its last
/// separator, the root `/` when the last separator is the first character,
/// and nothing for the root itself or a path without separators.
pub open spec fn parent_of(p: Seq<char>) -> Option<Seq<char>> {
    let i = last_index_of(p, '/');
    if i < 0 {
        None
    } else if i == 0 {
        if p.len() == 1 {
            None
        } else {
            Some(seq!['/'])
        }
    } else {
        Some(p.subrange(0, i))
    }
}

/// A parent path is always strictly shorter than its child.
pub proof fn lemma_parent_shorter(p: Seq<char>)
    ensures
        parent_of(p) matches Some(q) ==> q.len() < p.len(),
{
    lemma_last_index_of(p, '/');
}

/// Computes the parent directory of a path.
pub fn parent_of_str(p: &str) -> (r: Option<String>)
    ensures
        match r {
            Some(q) => parent_of(p@) == Some(q@),
            None => parent_of(p@) is None,
        },
{
    let len: usize = p.unicode_len();
    let mut i: usize = len;
    loop
        invariant
            len == p@.len(),
            0 <= i <= len,
            forall|j: int| i <= j < len ==> p@[j] != '/',
        ensures
            0 <= i <= len,
            forall|j: int| i <= j < len ==> p@[j] != '/',
            i == 0 || p@[i - 1] == '/',
        decreases i,
    {
        if i == 0 {
            break;
        }
        if p.get_char(i - 1) == '/' {
            break;
        }
        i -= 1;
    }
    proof {
        lemma_last_index_of(p@, '/');
        if i == 0 {
            assert(last_index_of(p@, '/') == -1) by {
                if last_index_of(p@, '/') >= 0 {
                    assert(p@[last_index_of(p@, '/')] == '/');
                }
            }
        } else {
            assert(last_index_of(p@, '/') == i - 1) by {
                if last_index_of(p@, '/') > i - 1 {
                    assert(p@[last_index_of(p@, '/')] != '/');
                } else if last_index_of(p@, '/') < i - 1 {
                    assert(p@[i - 1] != '/');
                }
            }
        }
    }
    if i == 0 {
        None
    } else if i == 1 {
        if len == 1 {
            None
        } else {
            let root = p.substring_char(0, 1);
            proof {
                assert(p@.subrange(0, 1) =~= seq!['/']);
            }
            Some(String::from_str(root))
        }
    } else {
        let q = p.substring_char(0, i - 1);
        Some(String::from_str(q))
    }
}

/// The chain of a path and all its ancestors, nearest first.
pub open spec fn chain_of(p: Seq<char>) -> Seq<Seq<char>>
    decreases p.len(),
{
    match parent_of(p) {
        Some(q) => {
            if q.len() < p.len() {
                seq![p] + chain_of(q)
            } else {
                seq![p]
            }
        },
        None => seq![p],
    }
}

/// Builds the ancestor chain of a path, the path itself first.
pub fn ancestor_chain(p: &str) -> (chain: Vec<String>)
    ensures
        chain@.map_values(|q: String| q@) == chain_of(p@),
        chain@.len() >= 1,
        chain@[0]@ == p@,
{
    let mut chain: Vec<String> = Vec::new();
    let mut cur: String = String::from_str(p);
    loop
        invariant
            chain_of(p@) == chain@.map_values(|q: String| q@) + chain_of(cur@),
            chain@.len() >= 1 ==> chain@[0]@ == p@,
            chain@.len() == 0 ==> cur@ == p@,
        decreases cur@.len(),
    {
        let ghost prev = chain@;
        let par = parent_of_str(cur.as_str());
        proof {
            lemma_parent_shorter(cur@);
        }
        chain.push(cur.clone());
        proof {
            assert(chain@.map_values(|q: String| q@) =~~= prev.map_values(|q: String| q@)
                + seq![cur@]);
        }
        match par {
            Some(q) => {
                proof {
                    assert(chain_of(cur@) == seq![cur@] + chain_of(q@));
                    assert(chain_of(p@) =~~= chain@.map_values(|x: String| x@) + chain_of(q@));
                }
                cur = q;
            },
            None => {
                proof {
                    assert(chain_of(cur@) =~~= seq![cur@]);
                    assert(chain_of(p@) =~~= chain@.map_values(|x: String| x@));
                }
                return chain;
            },
        }
    }
}

/// The index of the first `true` in `flags`, or the length when none.
pub open spec fn first_true(flags: Seq<bool>) -> int
    decreases flags.len(),
{
    if flags.len() == 0 {
        0
    } else if flags[0] {
        0
    } else {
        1 + first_true(flags.drop_first())
    }
}

pub proof fn lemma_first_true(flags: Seq<bool>)
    ensures
        0 <= first_true(flags) <= flags.len(),
        first_true(flags) < flags.len() ==> flags[first_true(flags)],
        forall|j: int| 0 <= j < first_true(flags) ==> !flags[j],
    decreases flags.len(),
{
    if flags.len() > 0 && !flags[0] {
        lemma_first_true(flags.drop_first());
        assert forall|j: int| 0 <= j < first_true(flags) implies !flags[j] by {
            if j > 0 {
                assert(flags.drop_first()[j - 1] == flags[j]);
            }
        }
    }
}

/// Decides where the working-copy root is.  `path_exists` is the host's
/// answer on whether the queried path exists; `chain` is its ancestor
/// chain, nearest first; `has_meta[i]` is the host's probe of whether
/// `chain[i]` holds the backend's metadata directory.  The root is the
/// first chain entry with metadata; a missing path and a chain without
/// metadata are the two distinct failures.
pub fn locate_working_copy_root(path_exists: bool, chain: &Vec<String>, has_meta: &Vec<bool>) -> (r:
    Result<String, VcsFailure>)
    requires
        chain@.len() == has_meta@.len(),
    ensures
        !path_exists ==> failed_with(r, FailureKind::NotFound),
        path_exists && first_true(has_meta@) < has_meta@.len() ==> r is Ok && ok_text(r)
            == chain@[first_true(has_meta@)]@,
        path_exists && first_true(has_meta@) == has_meta@.len() ==> failed_with(
            r,
            FailureKind::NotAWorkingCopy,
        ),
{
    if !path_exists {
        return Err(
            VcsFailure::new(
                FailureKind::NotFound,
                String::from_str("path does not exist"),
            ),
        );
    }
    let mut i: usize = 0;
    while i < has_meta.len()
        invariant
            path_exists,
            chain@.len() == has_meta@.len(),
            0 <= i <= has_meta@.len(),
            forall|j: int| 0 <= j < i ==> !has_meta@[j],
        decreases has_meta@.len() - i,
    {
        if has_meta[i] {
            proof {
                lemma_first_true(has_meta@);
                assert(first_true(has_meta@) == i) by {
                    lemma_first_true(has_meta@);
                    if first_true(has_meta@) < i {
                        assert(!has_meta@[first_true(has_meta@)]);
                    }
                }
            }
            return Ok(chain[i].clone());
        }
        i += 1;
    }
    proof {
        lemma_first_true(has_meta@);
        assert(first_true(has_meta@) == has_meta@.len()) by {
            if first_true(has_meta@) < has_meta@.len() {
                assert(!has_meta@[first_true(has_meta@)]);
            }
        }
    }
    Err(
        VcsFailure::new(
            FailureKind::NotAWorkingCopy,
            String::from_str("no working copy found in any ancestor directory"),
        ),
    )
}

proof fn lemma_last_index_of_concat(root: Seq<char>, seg: Seq<char>)
    requires
        forall|j: int| 0 <= j < seg.len() ==> seg[j] != '/',
    ensures
        last_index_of(root + seq!['/'] + seg, '/') == root.len(),
    decreases seg.len(),
{
    let s = root + seq!['/'] + seg;
    if seg.len() == 0 {
        assert(s.last() == '/');
    } else {
        assert(s.last() == seg.last());
        assert(seg.last() != '/');
        lemma_last_index_of_concat(root, seg.drop_last());
        assert(s.drop_last() =~= root + seq!['/'] + seg.drop_last());
    }
}

/// Appending one separator-free component to a non-empty directory path
/// makes that directory the parent.
pub proof fn lemma_parent_of_append(root: Seq<char>, seg: Seq<char>)
    requires
        root.len() > 0,
        forall|j: int| 0 <= j < seg.len() ==> seg[j] != '/',
    ensures
        parent_of(root + seq!['/'] + seg) == Some(root),
{
    let s = root + seq!['/'] + seg;
    lemma_last_index_of_concat(root, seg);
    if root.len() == 1 && root[0] == '/' {
        assert(s.subrange(0, 1) =~= root);
    } else {
        assert(s.subrange(0, root.len() as int) =~= root);
    }
}

/// The ancestor chain of a path three separator-free components below a
/// non-empty directory holds that directory at position three, after the
/// path itself and its two nearer ancestors.
pub proof fn lemma_chain_three_below(root: Seq<char>, a: Seq<char>, b: Seq<char>, c: Seq<char>)
    requires
        root.len() > 0,
        forall|j: int| 0 <= j < a.len() ==> a[j] != '/',
        forall|j: int| 0 <= j < b.len() ==> b[j] != '/',
        forall|j: int| 0 <= j < c.len() ==> c[j] != '/',
    ensures
        ({
            let p2 = root + seq!['/'] + a;
            let p1 = p2 + seq!['/'] + b;
            let p0 = p1 + seq!['/'] + c;
            chain_of(p0).len() > 3 && chain_of(p0)[0] == p0 && chain_of(p0)[1] == p1 && chain_of(
                p0,
            )[2] == p2 && chain_of(p0)[3] == root
        }),
{
    let p2 = root + seq!['/'] + a;
    let p1 = p2 + seq!['/'] + b;
    let p0 = p1 + seq!['/'] + c;
    lemma_parent_of_append(p1, c);
    lemma_parent_of_append(p2, b);
    lemma_parent_of_append(root, a);
    lemma_parent_shorter(p0);
    lemma_parent_shorter(p1);
    lemma_parent_shorter(p2);
    assert(chain_of(p0) == seq![p0] + chain_of(p1));
    assert(chain_of(p1) == seq![p1] + chain_of(p2));
    assert(chain_of(p2) == seq![p2] + chain_of(root));
    assert(chain_of(root).len() >= 1 && chain_of(root)[0] == root);
}

/// Locator law: for a path three separator-free components below a
/// directory that holds the metadata directory, with no metadata in the
/// path itself or the two nearer ancestors, the locator's selection is
/// position three of the chain — exactly that directory.  Together with
/// the contract of `locate_working_copy_root` this says the locator
/// returns that ancestor and nothing else.
pub proof fn lemma_locator_three_below(
    root: Seq<char>,
    a: Seq<char>,
    b: Seq<char>,
    c: Seq<char>,
    flags: Seq<bool>,
)
    requires
        root.len() > 0,
        forall|j: int| 0 <= j < a.len() ==> a[j] != '/',
        forall|j: int| 0 <= j < b.len() ==> b[j] != '/',
        forall|j: int| 0 <= j < c.len() ==> c[j] != '/',
        flags.len() == chain_of(root + seq!['/'] + a + seq!['/'] + b + seq!['/'] + c).len(),
        !flags[0],
        !flags[1],
        !flags[2],
        flags[3],
    ensures
        first_true(flags) == 3,
        chain_of(root + seq!['/'] + a + seq!['/'] + b + seq!['/'] + c)[first_true(flags)] == root,
{
    lemma_chain_three_below(root, a, b, c);
    let p0 = root + seq!['/'] + a + seq!['/'] + b + seq!['/'] + c;
    assert(p0 =~= ((root + seq!['/'] + a) + seq!['/'] + b) + seq!['/'] + c);
    lemma_first_true(flags);
    if first_true(flags) < 3 {
        assert(flags[first_true(flags)]);
    }
    if first_true(flags) > 3 {
        assert(!flags[3]);
    }
}

/// Locator law: a probe that never answers `true` leaves the selection
/// past the end of the chain, so by the contract of
/// `locate_working_copy_root` the locator fails with `NotAWorkingCopy`.
pub proof fn lemma_locator_no_metadata(flags: Seq<bool>)
    requires
        forall|j: int| 0 <= j < flags.len() ==> !flags[j],
    ensures
        first_true(flags) == flags.len(),
{
    lemma_first_true(flags);
    if first_true(flags) < flags.len() {
        assert(flags[first_true(flags)]);
    }
}

} // verus!
