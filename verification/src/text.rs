//! Verified text utilities: substring search, prefix tests, trimming and
//! line splitting.  Every operation is specified exactly over the `Seq<char>`
//! view of the strings involved; the parsers and classifiers of the crate
//! state their contracts in terms of these spec functions.

use vstd::prelude::*;

verus! {

/// The pattern `pat` occurs in `s` at position `i`.
pub open spec fn contains_at(s: Seq<char>, pat: Seq<char>, i: int) -> bool {
    0 <= i && i + pat.len() <= s.len() && s.subrange(i, i + pat.len()) == pat
}

/// The pattern `pat` occurs somewhere in `s`.
pub open spec fn contains_sub(s: Seq<char>, pat: Seq<char>) -> bool {
    exists|i: int| contains_at(s, pat, i)
}

/// `pat` is a prefix of `s`.
pub open spec fn starts_with(s: Seq<char>, pat: Seq<char>) -> bool {
    pat.len() <= s.len() && s.subrange(0, pat.len() as int) == pat
}

/// Compares `pat` against `s` at position `i`, character by character.
pub fn match_at(s: &str, pat: &str, i: usize) -> (b: bool)
    requires
        i + pat@.len() <= s@.len(),
        s@.len() <= usize::MAX,
    ensures
        b == contains_at(s@, pat@, i as int),
{
    let pat_len: usize = pat.unicode_len();
    let mut j: usize = 0;
    while j < pat_len
        invariant
            pat_len == pat@.len(),
            i + pat_len <= s@.len(),
            s@.len() <= usize::MAX,
            0 <= j <= pat_len,
            forall|k: int| 0 <= k < j ==> s@[i + k] == pat@[k],
        decreases pat_len - j,
    {
        if s.get_char(i + j) != pat.get_char(j) {
            assert(s@.subrange(i as int, i + pat@.len())[j as int] != pat@[j as int]);
            return false;
        }
        j += 1;
    }
    assert(s@.subrange(i as int, i + pat@.len()) =~= pat@);
    true
}

/// Finds the first occurrence of `pat` in `s`.
pub fn find_sub(s: &str, pat: &str) -> (r: Option<usize>)
    ensures
        match r {
            Some(i) => contains_at(s@, pat@, i as int) && forall|j: int|
                0 <= j < i ==> !contains_at(s@, pat@, j),
            None => !contains_sub(s@, pat@),
        },
{
    let s_len: usize = s.unicode_len();
    let pat_len: usize = pat.unicode_len();
    if pat_len > s_len {
        return None;
    }
    let end: usize = s_len - pat_len;
    let mut i: usize = 0;
    loop
        invariant
            s_len == s@.len(),
            pat_len == pat@.len(),
            pat_len <= s_len,
            end == s_len - pat_len,
            0 <= i <= end,
            forall|j: int| 0 <= j < i ==> !contains_at(s@, pat@, j),
        ensures
            forall|j: int| 0 <= j <= end ==> !contains_at(s@, pat@, j),
        decreases end - i,
    {
        if match_at(s, pat, i) {
            return Some(i);
        }
        if i == end {
            break;
        }
        i += 1;
    }
    assert forall|j: int| 0 <= j implies !contains_at(s@, pat@, j) by {
        if j <= end {
        } else {
            assert(j + pat@.len() > s@.len());
        }
    }
    None
}

/// Reports whether `pat` occurs anywhere in `s`.
pub fn contains_str(s: &str, pat: &str) -> (b: bool)
    ensures
        b == contains_sub(s@, pat@),
{
    match find_sub(s, pat) {
        Some(_) => true,
        None => false,
    }
}

/// Reports whether `pat` is a prefix of `s`.
pub fn starts_with_str(s: &str, pat: &str) -> (b: bool)
    ensures
        b == starts_with(s@, pat@),
{
    let s_len: usize = s.unicode_len();
    let pat_len: usize = pat.unicode_len();
    if pat_len > s_len {
        return false;
    }
    match_at(s, pat, 0)
}

/// Reports whether two string slices hold the same characters.
pub fn str_eq(a: &str, b: &str) -> (r: bool)
    ensures
        r == (a@ == b@),
{
    let a_len: usize = a.unicode_len();
    let b_len: usize = b.unicode_len();
    if a_len != b_len {
        return false;
    }
    let m = match_at(a, b, 0);
    proof {
        assert(a@.subrange(0, a@.len() as int) =~= a@);
    }
    m
}

/// When `pat` is a prefix of `s`, the rest of `s` after that prefix.
pub fn strip_prefix_str(s: &str, pat: &str) -> (r: Option<String>)
    ensures
        match r {
            Some(rest) => starts_with(s@, pat@) && rest@ == s@.subrange(
                pat@.len() as int,
                s@.len() as int,
            ),
            None => !starts_with(s@, pat@),
        },
{
    if !starts_with_str(s, pat) {
        return None;
    }
    let s_len: usize = s.unicode_len();
    let pat_len: usize = pat.unicode_len();
    let rest = s.substring_char(pat_len, s_len);
    Some(String::from_str(rest))
}

/// Whitespace for the purpose of trimming tool output.
pub open spec fn is_space(c: char) -> bool {
    c == ' ' || c == '\t' || c == '\r' || c == '\n'
}

/// `s` without its leading whitespace.
pub open spec fn trim_front(s: Seq<char>) -> Seq<char>
    decreases s.len(),
{
    if s.len() > 0 && is_space(s[0]) {
        trim_front(s.drop_first())
    } else {
        s
    }
}

/// `s` without its trailing whitespace.
pub open spec fn trim_back(s: Seq<char>) -> Seq<char>
    decreases s.len(),
{
    if s.len() > 0 && is_space(s.last()) {
        trim_back(s.drop_last())
    } else {
        s
    }
}

/// `s` without leading and trailing whitespace.
pub open spec fn trimmed(s: Seq<char>) -> Seq<char> {
    trim_back(trim_front(s))
}

proof fn lemma_trim_front_subrange(s: Seq<char>, a: int)
    requires
        0 <= a <= s.len(),
        forall|k: int| 0 <= k < a ==> is_space(s[k]),
        a == s.len() || !is_space(s[a]),
    ensures
        trim_front(s) == s.subrange(a, s.len() as int),
    decreases a,
{
    if a == 0 {
        assert(s.subrange(0, s.len() as int) =~= s);
    } else {
        let t = s.drop_first();
        assert(t =~= s.subrange(1, s.len() as int));
        lemma_trim_front_subrange(t, a - 1);
        assert(t.subrange(a - 1, t.len() as int) =~= s.subrange(a, s.len() as int));
    }
}

proof fn lemma_trim_back_subrange(s: Seq<char>, b: int)
    requires
        0 <= b <= s.len(),
        forall|k: int| b <= k < s.len() ==> is_space(s[k]),
        b == 0 || !is_space(s[b - 1]),
    ensures
        trim_back(s) == s.subrange(0, b),
    decreases s.len() - b,
{
    if b == s.len() {
        assert(s.subrange(0, b) =~= s);
    } else {
        let t = s.drop_last();
        assert(t =~= s.subrange(0, s.len() - 1));
        lemma_trim_back_subrange(t, b);
        assert(t.subrange(0, b) =~= s.subrange(0, b));
    }
}

/// Exec test matching `is_space`.
pub fn is_space_char(c: char) -> (b: bool)
    ensures
        b == is_space(c),
{
    c == ' ' || c == '\t' || c == '\r' || c == '\n'
}

/// Removes leading and trailing whitespace from `s`.
pub fn trim_str(s: &str) -> (r: String)
    ensures
        r@ == trimmed(s@),
{
    let len: usize = s.unicode_len();
    let mut a: usize = 0;
    loop
        invariant
            len == s@.len(),
            0 <= a <= len,
            forall|k: int| 0 <= k < a ==> is_space(s@[k]),
        ensures
            0 <= a <= len,
            forall|k: int| 0 <= k < a ==> is_space(s@[k]),
            a == len || !is_space(s@[a as int]),
        decreases len - a,
    {
        if a == len {
            break;
        }
        if !is_space_char(s.get_char(a)) {
            break;
        }
        a += 1;
    }
    let mut b: usize = len;
    loop
        invariant
            len == s@.len(),
            a <= b <= len,
            a == len || !is_space(s@[a as int]),
            forall|k: int| b <= k < len ==> is_space(s@[k]),
        ensures
            a <= b <= len,
            forall|k: int| b <= k < len ==> is_space(s@[k]),
            b == a || !is_space(s@[b - 1]),
        decreases b,
    {
        if b == a {
            break;
        }
        if !is_space_char(s.get_char(b - 1)) {
            break;
        }
        b -= 1;
    }
    let piece = s.substring_char(a, b);
    proof {
        lemma_trim_front_subrange(s@, a as int);
        let t = s@.subrange(a as int, s@.len() as int);
        lemma_trim_back_subrange(t, b - a);
        assert(t.subrange(0, b - a) =~= s@.subrange(a as int, b as int));
    }
    String::from_str(piece)
}

/// The pieces of `s` between occurrences of `sep`, in order.  Splitting the
/// empty sequence yields one empty piece; a separator at either end or two
/// adjacent separators yield empty pieces, as the usual string split does.
pub open spec fn split_char(s: Seq<char>, sep: char) -> Seq<Seq<char>>
    decreases s.len(),
{
    if s.len() == 0 {
        seq![Seq::<char>::empty()]
    } else if s[0] == sep {
        seq![Seq::<char>::empty()] + split_char(s.drop_first(), sep)
    } else {
        let r = split_char(s.drop_first(), sep);
        seq![seq![s[0]] + r[0]] + r.subrange(1, r.len() as int)
    }
}

pub proof fn lemma_split_char_len(s: Seq<char>, sep: char)
    ensures
        split_char(s, sep).len() >= 1,
    decreases s.len(),
{
    if s.len() > 0 {
        lemma_split_char_len(s.drop_first(), sep);
    }
}

/// When the first `k` characters of `s` are not separators, the first piece
/// of the split is exactly that prefix: the whole of `s` when `k` reaches the
/// end, or `s[..k]` followed by the split of what comes after the separator.
proof fn lemma_split_char_first_piece(s: Seq<char>, sep: char, k: int)
    requires
        0 <= k <= s.len(),
        forall|j: int| 0 <= j < k ==> s[j] != sep,
    ensures
        k == s.len() ==> split_char(s, sep) == seq![s],
        k < s.len() && s[k] == sep ==> split_char(s, sep) == seq![s.subrange(0, k)]
            + split_char(s.subrange(k + 1, s.len() as int), sep),
    decreases k,
{
    lemma_split_char_len(s, sep);
    if k == 0 {
        if 0 < s.len() && s[0] == sep {
            assert(s.drop_first() =~= s.subrange(1, s.len() as int));
            assert(s.subrange(0, 0) =~= Seq::<char>::empty());
            assert(split_char(s, sep) =~~= seq![s.subrange(0, 0)] + split_char(
                s.subrange(1, s.len() as int),
                sep,
            ));
        } else if s.len() == 0 {
            assert(split_char(s, sep) =~~= seq![s]);
        }
    } else {
        let t = s.drop_first();
        lemma_split_char_len(t, sep);
        lemma_split_char_first_piece(t, sep, k - 1);
        let r = split_char(t, sep);
        if k == s.len() {
            assert(r == seq![t]);
            assert(split_char(s, sep) =~~= seq![s]) by {
                assert(seq![s[0]] + r[0] =~= s);
                assert(r.subrange(1, r.len() as int) =~= Seq::<Seq<char>>::empty());
            }
        } else if s[k] == sep {
            assert(t[k - 1] == sep);
            assert(r == seq![t.subrange(0, k - 1)] + split_char(
                t.subrange(k, t.len() as int),
                sep,
            ));
            let tail = split_char(t.subrange(k, t.len() as int), sep);
            lemma_split_char_len(t.subrange(k, t.len() as int), sep);
            assert(split_char(s, sep) =~~= seq![s.subrange(0, k)] + split_char(
                s.subrange(k + 1, s.len() as int),
                sep,
            )) by {
                assert(seq![s[0]] + r[0] =~= s.subrange(0, k)) by {
                    assert(r[0] == t.subrange(0, k - 1));
                }
                assert(t.subrange(k, t.len() as int) =~= s.subrange(k + 1, s.len() as int));
                assert(r.subrange(1, r.len() as int) =~= tail);
            }
        }
    }
}

/// Splits `s` at every occurrence of `sep`.
pub fn split_str(s: &str, sep: char) -> (parts: Vec<String>)
    ensures
        parts@.map_values(|p: String| p@) == split_char(s@, sep),
{
    let len: usize = s.unicode_len();
    let mut parts: Vec<String> = Vec::new();
    let mut start: usize = 0;
    let mut i: usize = 0;
    proof {
        assert(s@.subrange(0, len as int) =~= s@);
    }
    while i < len
        invariant
            len == s@.len(),
            0 <= start <= i <= len,
            forall|j: int| start <= j < i ==> s@[j] != sep,
            split_char(s@, sep) == parts@.map_values(|p: String| p@) + split_char(
                s@.subrange(start as int, len as int),
                sep,
            ),
        decreases len - i,
    {
        if s.get_char(i) == sep {
            let tok = s.substring_char(start, i);
            let tok_s = String::from_str(tok);
            let ghost suffix = s@.subrange(start as int, len as int);
            let ghost prev = parts@;
            proof {
                lemma_split_char_first_piece(suffix, sep, i - start);
                assert(suffix.subrange(0, i - start) =~= s@.subrange(start as int, i as int));
                assert(suffix.subrange(i - start + 1, suffix.len() as int) =~= s@.subrange(
                    i + 1,
                    len as int,
                ));
            }
            parts.push(tok_s);
            proof {
                assert(parts@.map_values(|p: String| p@) =~~= prev.map_values(|p: String| p@)
                    + seq![tok@]);
                assert(split_char(s@, sep) =~~= parts@.map_values(|p: String| p@) + split_char(
                    s@.subrange(i + 1, len as int),
                    sep,
                ));
            }
            start = i + 1;
        }
        i += 1;
    }
    let tok = s.substring_char(start, len);
    let tok_s = String::from_str(tok);
    let ghost suffix = s@.subrange(start as int, len as int);
    let ghost prev = parts@;
    proof {
        lemma_split_char_first_piece(suffix, sep, len - start);
    }
    parts.push(tok_s);
    proof {
        assert(parts@.map_values(|p: String| p@) =~~= prev.map_values(|p: String| p@)
            + seq![tok@]);
        assert(parts@.map_values(|p: String| p@) =~~= split_char(s@, sep));
    }
    parts
}

/// The index of the first occurrence of `c` in `s`, or -1 when absent.
pub open spec fn first_index_of(s: Seq<char>, c: char) -> int
    decreases s.len(),
{
    if s.len() == 0 {
        -1
    } else if s[0] == c {
        0
    } else {
        let r = first_index_of(s.drop_first(), c);
        if r < 0 {
            -1
        } else {
            1 + r
        }
    }
}

pub proof fn lemma_first_index_of(s: Seq<char>, c: char)
    ensures
        -1 <= first_index_of(s, c) < s.len(),
        first_index_of(s, c) >= 0 ==> s[first_index_of(s, c)] == c,
        forall|j: int| 0 <= j < first_index_of(s, c) ==> s[j] != c,
        first_index_of(s, c) == -1 ==> forall|j: int| 0 <= j < s.len() ==> s[j] != c,
    decreases s.len(),
{
    if s.len() > 0 && s[0] != c {
        lemma_first_index_of(s.drop_first(), c);
        assert forall|j: int| 1 <= j < s.len() implies s[j] == s.drop_first()[j - 1] by {}
    }
}

/// Finds the first occurrence of the character `c` in `s`.
pub fn find_char(s: &str, c: char) -> (r: Option<usize>)
    ensures
        match r {
            Some(i) => first_index_of(s@, c) == i,
            None => first_index_of(s@, c) == -1,
        },
{
    let len: usize = s.unicode_len();
    let mut i: usize = 0;
    proof {
        lemma_first_index_of(s@, c);
    }
    while i < len
        invariant
            len == s@.len(),
            0 <= i <= len,
            forall|j: int| 0 <= j < i ==> s@[j] != c,
            -1 <= first_index_of(s@, c) < s@.len(),
            first_index_of(s@, c) >= 0 ==> s@[first_index_of(s@, c)] == c,
            forall|j: int| 0 <= j < first_index_of(s@, c) ==> s@[j] != c,
            first_index_of(s@, c) == -1 ==> forall|j: int| 0 <= j < s@.len() ==> s@[j] != c,
        decreases len - i,
    {
        if s.get_char(i) == c {
            return Some(i);
        }
        i += 1;
    }
    None
}

/// The index of the first occurrence of `pat` in `s`, or -1 when absent.
pub open spec fn first_match_index(s: Seq<char>, pat: Seq<char>) -> int
    decreases s.len(),
{
    if starts_with(s, pat) {
        0
    } else if s.len() == 0 {
        -1
    } else {
        let r = first_match_index(s.drop_first(), pat);
        if r < 0 {
            -1
        } else {
            1 + r
        }
    }
}

pub proof fn lemma_first_match_index(s: Seq<char>, pat: Seq<char>)
    ensures
        -1 <= first_match_index(s, pat) <= s.len(),
        first_match_index(s, pat) >= 0 ==> contains_at(s, pat, first_match_index(s, pat)),
        forall|j: int| 0 <= j < first_match_index(s, pat) ==> !contains_at(s, pat, j),
        first_match_index(s, pat) == -1 ==> !contains_sub(s, pat),
    decreases s.len(),
{
    if starts_with(s, pat) {
    } else if s.len() == 0 {
        assert forall|j: int| !contains_at(s, pat, j) by {
            if 0 <= j && j + pat.len() <= s.len() {
                assert(!starts_with(s, pat));
            }
        }
    } else {
        let t = s.drop_first();
        lemma_first_match_index(t, pat);
        assert forall|i: int| 0 <= i && !contains_at(t, pat, i - 1) && i != 0 implies !contains_at(
            s,
            pat,
            i,
        ) by {
            if 0 <= i - 1 && i - 1 + pat.len() <= t.len() {
                assert(t.subrange(i - 1, i - 1 + pat.len() as int) =~= s.subrange(
                    i,
                    i + pat.len() as int,
                ));
            }
        }
        assert forall|i: int| 0 <= i && contains_at(t, pat, i - 1) implies contains_at(
            s,
            pat,
            i,
        ) by {
            assert(t.subrange(i - 1, i - 1 + pat.len() as int) =~= s.subrange(
                i,
                i + pat.len() as int,
            ));
        }
        let r = first_match_index(t, pat);
        if r >= 0 {
            assert(contains_at(t, pat, r));
            assert(contains_at(s, pat, r + 1));
        }
    }
}

/// Finds the first occurrence of `pat` in `s` as a `first_match_index`.
pub fn find_first_match(s: &str, pat: &str) -> (r: Option<usize>)
    ensures
        match r {
            Some(i) => first_match_index(s@, pat@) == i,
            None => first_match_index(s@, pat@) == -1,
        },
{
    proof {
        lemma_first_match_index(s@, pat@);
    }
    match find_sub(s, pat) {
        Some(i) => {
            proof {
                let fmi = first_match_index(s@, pat@);
                if fmi < i {
                    assert(contains_at(s@, pat@, fmi));
                } else if fmi > i || fmi == -1 {
                    assert(contains_at(s@, pat@, i as int));
                }
            }
            Some(i)
        },
        None => {
            proof {
                let fmi = first_match_index(s@, pat@);
                if fmi >= 0 {
                    assert(contains_at(s@, pat@, fmi));
                }
            }
            None
        },
    }
}

/// `l` without one trailing carriage return, if it has one.
pub open spec fn strip_cr(l: Seq<char>) -> Seq<char> {
    if l.len() > 0 && l.last() == '\r' {
        l.drop_last()
    } else {
        l
    }
}

/// The lines of `s`: pieces between newlines, each without a trailing
/// carriage return, so that both Unix and Windows line endings read alike.
pub open spec fn lines_of(s: Seq<char>) -> Seq<Seq<char>> {
    split_char(s, '\n').map_values(|l: Seq<char>| strip_cr(l))
}

/// Splits `s` into lines, handling both `\n` and `\r\n` endings.
pub fn split_lines(s: &str) -> (lines: Vec<String>)
    ensures
        lines@.map_values(|p: String| p@) == lines_of(s@),
{
    let raw = split_str(s, '\n');
    let mut lines: Vec<String> = Vec::new();
    let mut i: usize = 0;
    while i < raw.len()
        invariant
            raw@.map_values(|p: String| p@) == split_char(s@, '\n'),
            0 <= i <= raw@.len(),
            lines@.len() == i,
            forall|k: int| 0 <= k < i ==> #[trigger] lines@[k]@ == strip_cr(raw@[k]@),
        decreases raw@.len() - i,
    {
        let line = &raw[i];
        let line_len: usize = line.as_str().unicode_len();
        if line_len > 0 && line.as_str().get_char(line_len - 1) == '\r' {
            let stripped = line.as_str().substring_char(0, line_len - 1);
            proof {
                assert(line@.subrange(0, line@.len() - 1) =~= line@.drop_last());
            }
            lines.push(String::from_str(stripped));
        } else {
            lines.push(line.clone());
        }
        i += 1;
    }
    proof {
        assert(lines@.map_values(|p: String| p@) =~~= lines_of(s@));
    }
    lines
}

} // verus!
