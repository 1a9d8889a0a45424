//! Character-level utilities over `&str` views: equality, trimming, substring
//! search, and finding a character.  Everything here is stated over `Seq<char>`.

use vstd::prelude::*;
use vstd::string::StrSliceExecFns;

verus! {

/// The whitespace characters recognised by trimming and by the branch-marker
/// stripping: the ASCII whitespace set.
pub open spec fn is_space_char(c: char) -> bool {
    c == ' ' || c == '\t' || c == '\n' || c == '\r' || c == '\u{000B}' || c == '\u{000C}'
}

/// `s` with its leading whitespace removed.
pub open spec fn spec_trim_start(s: Seq<char>) -> Seq<char>
    decreases s.len(),
{
    if s.len() > 0 && is_space_char(s[0]) {
        spec_trim_start(s.drop_first())
    } else {
        s
    }
}

/// `s` with its trailing whitespace removed.
pub open spec fn spec_trim_end(s: Seq<char>) -> Seq<char>
    decreases s.len(),
{
    if s.len() > 0 && is_space_char(s.last()) {
        spec_trim_end(s.drop_last())
    } else {
        s
    }
}

/// `s` with leading and trailing whitespace removed.
pub open spec fn spec_trim(s: Seq<char>) -> Seq<char> {
    spec_trim_end(spec_trim_start(s))
}

/// `needle` occurs at position `i` of `hay`.
pub open spec fn starts_with_at(hay: Seq<char>, i: int, needle: Seq<char>) -> bool {
    0 <= i && i + needle.len() <= hay.len() && hay.subrange(i, i + needle.len() as int) == needle
}

/// `needle` occurs somewhere in `hay`.
pub open spec fn contains_seq(hay: Seq<char>, needle: Seq<char>) -> bool {
    exists|i: int| starts_with_at(hay, i, needle)
}

/// The index of the first occurrence of `c` in `s`, or `s.len()` if there is none.
pub open spec fn spec_find(s: Seq<char>, c: char) -> int
    decreases s.len(),
{
    if s.len() == 0 {
        0
    } else if s[0] == c {
        0
    } else {
        1 + spec_find(s.drop_first(), c)
    }
}

/// `spec_find` is a position within the sequence, holds `c` unless it is the
/// end, and nothing before it holds `c`.
pub proof fn lemma_spec_find(s: Seq<char>, c: char)
    ensures
        0 <= spec_find(s, c) <= s.len(),
        spec_find(s, c) < s.len() ==> s[spec_find(s, c)] == c,
        forall|k: int| 0 <= k < spec_find(s, c) ==> s[k] != c,
    decreases s.len(),
{
    if s.len() > 0 && s[0] != c {
        lemma_spec_find(s.drop_first(), c);
        assert forall|k: int| 0 <= k < spec_find(s, c) implies s[k] != c by {
            if k > 0 {
                assert(s.drop_first()[k - 1] != c);
            }
        }
    }
}

/// The first position with `c` determines `spec_find`: a position before which
/// `c` never occurs, and which holds `c` or is the end, is the result.
pub proof fn lemma_spec_find_unique(s: Seq<char>, c: char, j: int)
    requires
        0 <= j <= s.len(),
        forall|k: int| 0 <= k < j ==> s[k] != c,
        j < s.len() ==> s[j] == c,
    ensures
        spec_find(s, c) == j,
    decreases s.len(),
{
    if s.len() == 0 {
    } else if s[0] == c {
    } else {
        assert(forall|k: int| 0 <= k < j - 1 ==> s.drop_first()[k] == s[k + 1]);
        lemma_spec_find_unique(s.drop_first(), c, j - 1);
    }
}

/// Whether the views of two string slices are equal.
pub fn str_eq(a: &str, b: &str) -> (r: bool)
    ensures
        r == (a@ == b@),
{
    let a_len = a.unicode_len();
    let b_len = b.unicode_len();
    if a_len != b_len {
        return false;
    }
    let mut i: usize = 0;
    while i < a_len
        invariant
            a_len == a@.len(),
            b_len == b@.len(),
            a_len == b_len,
            i <= a_len,
            forall|k: int| 0 <= k < i ==> a@[k] == b@[k],
        decreases a_len - i,
    {
        if a.get_char(i) != b.get_char(i) {
            return false;
        }
        i = i + 1;
    }
    proof {
        assert(a@ =~= b@);
    }
    true
}

/// The index of the first occurrence of `c` in `s` at or after `from`,
/// or `s@.len()` if there is none.
pub fn find_char(s: &str, from: usize, c: char) -> (j: usize)
    requires
        from <= s@.len(),
    ensures
        j == from + spec_find(s@.subrange(from as int, s@.len() as int), c),
        from <= j <= s@.len(),
        j < s@.len() ==> s@[j as int] == c,
        forall|k: int| from <= k < j ==> s@[k] != c,
{
    let len = s.unicode_len();
    let mut j = from;
    while j < len && s.get_char(j) != c
        invariant
            from <= j <= len,
            len == s@.len(),
            forall|k: int| from <= k < j ==> s@[k] != c,
        decreases len - j,
    {
        j = j + 1;
    }
    proof {
        let sub = s@.subrange(from as int, s@.len() as int);
        assert(forall|k: int| 0 <= k < j - from ==> sub[k] == s@[k + from]);
        assert((j - from) < sub.len() ==> sub[j - from] == s@[j as int]);
        lemma_spec_find_unique(sub, c, j - from);
    }
    j
}

/// Whether `needle` occurs at position `i` of `hay`.
pub fn match_at(hay: &str, i: usize, needle: &str) -> (r: bool)
    requires
        i <= hay@.len(),
    ensures
        r == starts_with_at(hay@, i as int, needle@),
{
    let hay_len = hay.unicode_len();
    let needle_len = needle.unicode_len();
    if needle_len > hay_len - i {
        return false;
    }
    let mut k: usize = 0;
    while k < needle_len
        invariant
            i + needle_len <= hay_len,
            hay_len == hay@.len(),
            needle_len == needle@.len(),
            k <= needle_len,
            forall|m: int| 0 <= m < k ==> hay@[i + m] == needle@[m],
        decreases needle_len - k,
    {
        if hay.get_char(i + k) != needle.get_char(k) {
            assert(hay@.subrange(i as int, i + needle@.len() as int) != needle@) by {
                assert(hay@.subrange(i as int, i + needle@.len() as int)[k as int] == hay@[i + k]);
            }
            return false;
        }
        k = k + 1;
    }
    proof {
        assert(hay@.subrange(i as int, i + needle@.len() as int) =~= needle@);
    }
    true
}

/// Whether `needle` occurs somewhere in `hay`.
pub fn str_contains(hay: &str, needle: &str) -> (r: bool)
    ensures
        r == contains_seq(hay@, needle@),
{
    let hay_len = hay.unicode_len();
    let needle_len = needle.unicode_len();
    if needle_len == 0 {
        proof {
            assert(hay@.subrange(0, 0) =~= needle@);
            assert(starts_with_at(hay@, 0, needle@));
        }
        return true;
    }
    let mut i: usize = 0;
    while i < hay_len
        invariant
            i <= hay_len,
            hay_len == hay@.len(),
            forall|j: int| 0 <= j < i ==> !starts_with_at(hay@, j, needle@),
        decreases hay_len - i,
    {
        if match_at(hay, i, needle) {
            return true;
        }
        i = i + 1;
    }
    proof {
        assert(forall|j: int| starts_with_at(hay@, j, needle@) ==> 0 <= j < hay@.len());
    }
    false
}

/// `s` with leading and trailing whitespace removed.
pub fn trim(s: &str) -> (r: &str)
    ensures
        r@ == spec_trim(s@),
{
    let len = s.unicode_len();
    let mut start: usize = 0;
    while start < len && is_space(s.get_char(start))
        invariant
            start <= len,
            len == s@.len(),
            forall|k: int| 0 <= k < start ==> is_space_char(s@[k]),
        decreases len - start,
    {
        start = start + 1;
    }
    let mut end: usize = len;
    while end > start && is_space(s.get_char(end - 1))
        invariant
            start <= end <= len,
            len == s@.len(),
            forall|k: int| 0 <= k < start ==> is_space_char(s@[k]),
            forall|k: int| end <= k < len ==> is_space_char(s@[k]),
        decreases end,
    {
        end = end - 1;
    }
    proof {
        lemma_trim_start_range(s@, start as int);
        let t = s@.subrange(start as int, s@.len() as int);
        assert(forall|k: int| end - start <= k < t.len() ==> is_space_char(t[k]));
        assert(end > start ==> !is_space_char(t[end - start - 1]));
        lemma_trim_end_range(t, end - start);
        assert(t.subrange(0, end - start) =~= s@.subrange(start as int, end as int));
    }
    s.substring_char(start, end)
}

/// Whether `c` is in the whitespace set.
pub fn is_space(c: char) -> (r: bool)
    ensures
        r == is_space_char(c),
{
    c == ' ' || c == '\t' || c == '\n' || c == '\r' || c == '\u{000B}' || c == '\u{000C}'
}

/// Trimming the front removes exactly the leading run of whitespace.
pub proof fn lemma_trim_start_range(s: Seq<char>, start: int)
    requires
        0 <= start <= s.len(),
        forall|k: int| 0 <= k < start ==> is_space_char(s[k]),
        start < s.len() ==> !is_space_char(s[start]),
    ensures
        spec_trim_start(s) == s.subrange(start, s.len() as int),
    decreases s.len(),
{
    if start == 0 {
        if s.len() > 0 && is_space_char(s[0]) {
            assert(false);
        }
        assert(s.subrange(0, s.len() as int) =~= s);
    } else {
        let d = s.drop_first();
        assert(forall|k: int| 0 <= k < start - 1 ==> d[k] == s[k + 1]);
        lemma_trim_start_range(d, start - 1);
        assert(d.subrange(start - 1, d.len() as int) =~= s.subrange(start, s.len() as int));
    }
}

/// Trimming the back removes exactly the trailing run of whitespace.
pub proof fn lemma_trim_end_range(s: Seq<char>, end: int)
    requires
        0 <= end <= s.len(),
        forall|k: int| end <= k < s.len() ==> is_space_char(s[k]),
        end > 0 ==> !is_space_char(s[end - 1]),
    ensures
        spec_trim_end(s) == s.subrange(0, end),
    decreases s.len(),
{
    if end == s.len() {
        if s.len() > 0 && is_space_char(s.last()) {
            assert(false);
        }
        assert(s.subrange(0, s.len() as int) =~= s);
    } else {
        let d = s.drop_last();
        lemma_trim_end_range(d, end);
        assert(d.subrange(0, end) =~= s.subrange(0, end));
    }
}

} // verus!
