//! Character-level helpers over strings: newline scanning and suffix tests.

use vstd::prelude::*;
use vstd::string::StrSliceExecFns;

verus! {

/// Index of the first newline character of `s` at or after `from`, or -1
/// when there is none.
pub open spec fn find_newline(s: Seq<char>, from: int) -> int
    decreases s.len() - from when 0 <= from
{
    if from < 0 || from >= s.len() {
        -1
    } else if s[from] == '\n' {
        from
    } else {
        find_newline(s, from + 1)
    }
}

/// A found newline index lies within the string, carries a newline, and is
/// the first such position at or after `from`.
pub proof fn lemma_find_newline_found(s: Seq<char>, from: int)
    requires
        0 <= from,
        find_newline(s, from) != -1,
    ensures
        from <= find_newline(s, from) < s.len(),
        s[find_newline(s, from)] == '\n',
        forall|k: int| from <= k < find_newline(s, from) ==> s[k] != '\n',
    decreases s.len() - from,
{
    if from < s.len() && s[from] != '\n' {
        lemma_find_newline_found(s, from + 1);
    }
}

/// Finds the first newline of `s` at or after position `from`.
pub fn first_newline_from(s: &str, from: usize) -> (r: Option<usize>)
    requires
        from <= s@.len(),
    ensures
        match r {
            Some(i) => find_newline(s@, from as int) == i as int,
            None => find_newline(s@, from as int) == -1,
        },
{
    let n = s.unicode_len();
    let mut i = from;
    while i < n
        invariant
            from <= i <= n,
            n == s@.len(),
            find_newline(s@, from as int) == find_newline(s@, i as int),
        decreases n - i,
    {
        let c = s.get_char(i);
        if c == '\n' {
            return Some(i);
        }
        i = i + 1;
    }
    None
}

/// `s` ends with `suffix`.
pub open spec fn ends_with(s: Seq<char>, suffix: Seq<char>) -> bool {
    suffix.len() <= s.len() && s.subrange(s.len() - suffix.len(), s.len() as int)
        == suffix
}

/// Suffix test over the characters of two strings.
pub fn str_ends_with(s: &str, suffix: &str) -> (r: bool)
    ensures
        r == ends_with(s@, suffix@),
{
    let n = s.unicode_len();
    let m = suffix.unicode_len();
    if m > n {
        return false;
    }
    let mut i: usize = 0;
    while i < m
        invariant
            i <= m,
            m <= n,
            n == s@.len(),
            m == suffix@.len(),
            forall|k: int| 0 <= k < i ==> s@[n - m + k] == suffix@[k],
        decreases m - i,
    {
        let a = s.get_char(n - m + i);
        let b = suffix.get_char(i);
        if a != b {
            proof {
                if ends_with(s@, suffix@) {
                    assert(s@.subrange(n - m, n as int)[i as int] == suffix@[i as int]);
                }
            }
            return false;
        }
        i = i + 1;
    }
    proof {
        assert(s@.subrange(n - m, n as int) =~= suffix@);
    }
    true
}

} // verus!
