//! Character-level helpers on strings, proved against `Seq<char>` statements.
use vstd::prelude::*;

verus! {

/// `pat` occurs in `s` starting at character position `start`.
pub open spec fn occurs_at(s: Seq<char>, start: int, pat: Seq<char>) -> bool {
    0 <= start && start + pat.len() <= s.len() && s.subrange(start, start + pat.len()) == pat
}

/// `s` ends with `suffix`.
pub open spec fn has_suffix(s: Seq<char>, suffix: Seq<char>) -> bool {
    suffix.len() <= s.len() && s.subrange(s.len() - suffix.len(), s.len() as int) == suffix
}

/// Tells whether `pat` occurs in `s` at character position `start`.
pub fn occurs_at_pos(s: &str, start: usize, pat: &str) -> (r: bool)
    ensures
        r == occurs_at(s@, start as int, pat@),
{
    let n = s.unicode_len();
    let m = pat.unicode_len();
    if start > n || m > n - start {
        return false;
    }
    let mut j: usize = 0;
    while j < m
        invariant
            n == s@.len(),
            m == pat@.len(),
            start + m <= n,
            j <= m,
            forall|k: int| 0 <= k < j ==> s@[start + k] == pat@[k],
        decreases m - j,
    {
        if s.get_char(start + j) != pat.get_char(j) {
            assert(s@.subrange(start as int, start + m)[j as int] != pat@[j as int]);
            return false;
        }
        j = j + 1;
    }
    assert(s@.subrange(start as int, start + m) =~= pat@);
    true
}

/// Tells whether `s` ends with `suffix`.
pub fn ends_with(s: &str, suffix: &str) -> (r: bool)
    ensures
        r == has_suffix(s@, suffix@),
{
    let n = s.unicode_len();
    let m = suffix.unicode_len();
    if m > n {
        return false;
    }
    occurs_at_pos(s, n - m, suffix)
}

} // verus!
