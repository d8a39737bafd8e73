//! Verified string helpers: equality, ASCII case-insensitive equality,
//! suffix test and substring containment.

use vstd::prelude::*;
use vstd::string::StrSliceExecFns;

verus! {

/// Character-by-character string equality.
pub fn str_eq(a: &str, b: &str) -> (r: bool)
    ensures
        r == (a@ == b@),
{
    let n = a.unicode_len();
    if n != b.unicode_len() {
        return false;
    }
    let mut i: usize = 0;
    while i < n
        invariant
            i <= n,
            n == a@.len(),
            n == b@.len(),
            forall|j: int| 0 <= j < i ==> a@[j] == b@[j],
        decreases n - i,
    {
        if a.get_char(i) != b.get_char(i) {
            return false;
        }
        i += 1;
    }
    proof {
        assert(a@ =~= b@);
    }
    true
}

/// `b` is `a` with an ASCII upper-case letter mapped to lower case, or `a` itself.
pub open spec fn char_eq_fold(a: char, b: char) -> bool {
    a == b || (65 <= a as u32 <= 90 && b as u32 == a as u32 + 32)
}

/// `s` equals `t` once the ASCII upper-case letters of `s` are folded to lower case.
pub open spec fn seq_eq_fold(s: Seq<char>, t: Seq<char>) -> bool {
    s.len() == t.len() && (forall|i: int| 0 <= i < s.len() ==> char_eq_fold(s[i], t[i]))
}

/// ASCII case-insensitive comparison of `s` against a lower-case word `t`.
pub fn str_eq_fold(s: &str, t: &str) -> (r: bool)
    ensures
        r == seq_eq_fold(s@, t@),
{
    let n = s.unicode_len();
    if n != t.unicode_len() {
        return false;
    }
    let mut i: usize = 0;
    while i < n
        invariant
            i <= n,
            n == s@.len(),
            n == t@.len(),
            forall|j: int| 0 <= j < i ==> char_eq_fold(s@[j], t@[j]),
        decreases n - i,
    {
        let sc = s.get_char(i);
        let tc = t.get_char(i);
        let sv = sc as u32;
        let tv = tc as u32;
        if !(sc == tc || (65 <= sv && sv <= 90 && tv == sv + 32)) {
            return false;
        }
        i += 1;
    }
    true
}

/// `s` ends with `suffix`.
pub open spec fn ends_with(s: Seq<char>, suffix: Seq<char>) -> bool {
    s.len() >= suffix.len() && s.subrange(s.len() - suffix.len(), s.len() as int) == suffix
}

pub fn str_ends_with(s: &str, suffix: &str) -> (r: bool)
    ensures
        r == ends_with(s@, suffix@),
{
    let n = s.unicode_len();
    let m = suffix.unicode_len();
    if m > n {
        return false;
    }
    let mut j: usize = 0;
    while j < m
        invariant
            j <= m,
            m <= n,
            n == s@.len(),
            m == suffix@.len(),
            forall|k: int| 0 <= k < j ==> s@[n - m + k] == suffix@[k],
        decreases m - j,
    {
        if s.get_char(n - m + j) != suffix.get_char(j) {
            proof {
                assert(s@.subrange(n - m, n as int)[j as int] == s@[n - m + j]);
            }
            return false;
        }
        j += 1;
    }
    proof {
        assert(s@.subrange(n - m, n as int) =~= suffix@);
    }
    true
}

/// `p` occurs in `s` starting at position `i`.
pub open spec fn matches_at(s: Seq<char>, p: Seq<char>, i: int) -> bool {
    0 <= i && i + p.len() <= s.len() && s.subrange(i, i + p.len()) == p
}

/// `s` contains `p` as a contiguous substring.
pub open spec fn contains_seq(s: Seq<char>, p: Seq<char>) -> bool {
    exists|i: int| matches_at(s, p, i)
}

fn match_at(s: &str, p: &str, i: usize) -> (r: bool)
    requires
        i + p@.len() <= s@.len(),
    ensures
        r == matches_at(s@, p@, i as int),
{
    let n = s.unicode_len();
    let m = p.unicode_len();
    let mut j: usize = 0;
    while j < m
        invariant
            j <= m,
            m == p@.len(),
            n == s@.len(),
            i + m <= n,
            forall|k: int| 0 <= k < j ==> s@[i + k] == p@[k],
        decreases m - j,
    {
        if s.get_char(i + j) != p.get_char(j) {
            proof {
                assert(s@.subrange(i as int, i + p@.len())[j as int] == s@[i + j]);
            }
            return false;
        }
        j += 1;
    }
    proof {
        assert(s@.subrange(i as int, i + p@.len()) =~= p@);
    }
    true
}

/// Substring containment, the pattern rule of the cache's selective clear.
pub fn str_contains(s: &str, p: &str) -> (r: bool)
    ensures
        r == contains_seq(s@, p@),
{
    let n = s.unicode_len();
    let m = p.unicode_len();
    if m > n {
        proof {
            assert forall|i: int| !matches_at(s@, p@, i) by {}
        }
        return false;
    }
    if m == 0 {
        proof {
            assert(s@.subrange(0, 0) =~= p@);
            assert(matches_at(s@, p@, 0));
        }
        return true;
    }
    let mut i: usize = 0;
    while i <= n - m
        invariant
            i <= n - m + 1,
            1 <= m <= n,
            n == s@.len(),
            m == p@.len(),
            forall|k: int| 0 <= k < i ==> !matches_at(s@, p@, k),
        decreases n - m + 1 - i,
    {
        if match_at(s, p, i) {
            return true;
        }
        i += 1;
    }
    proof {
        assert forall|k: int| !matches_at(s@, p@, k) by {
            if 0 <= k <= n - m {
                assert(!matches_at(s@, p@, k));
            }
        }
    }
    false
}

} // verus!
