//! Verified helpers over strings: equality, prefix, suffix and substring
//! tests, stated over the `Seq<char>` views.

use vstd::prelude::*;

verus! {

/// `p` stands at the front of `s`.
pub open spec fn is_prefix_of(p: Seq<char>, s: Seq<char>) -> bool {
    p.len() <= s.len() && (forall|j: int| 0 <= j < p.len() ==> s[j] == p[j])
}

/// `p` stands at the end of `s`.
pub open spec fn is_suffix_of(p: Seq<char>, s: Seq<char>) -> bool {
    p.len() <= s.len() && (forall|j: int|
        0 <= j < p.len() ==> s[s.len() - p.len() + j] == p[j])
}

/// `n` occurs in `s` starting at position `at`.
pub open spec fn occurs_at(n: Seq<char>, s: Seq<char>, at: int) -> bool {
    0 <= at && at + n.len() <= s.len() && (forall|j: int|
        0 <= j < n.len() ==> s[at + j] == n[j])
}

/// `n` occurs somewhere in `s`.
pub open spec fn is_substring_of(n: Seq<char>, s: Seq<char>) -> bool {
    exists|at: int| occurs_at(n, s, at)
}

/// Character-for-character equality of two string slices.
pub fn str_eq(a: &str, b: &str) -> (r: bool)
    ensures
        r == (a@ == b@),
{
    let al = a.unicode_len();
    let bl = b.unicode_len();
    if al != bl {
        proof {
            assert(a@ != b@) by {
                assert(a@.len() != b@.len());
            }
        }
        return false;
    }
    let mut i: usize = 0;
    while i < al
        invariant
            i <= al,
            al == a@.len(),
            al == b@.len(),
            forall|j: int| 0 <= j < i ==> a@[j] == b@[j],
        decreases al - i,
    {
        if a.get_char(i) != b.get_char(i) {
            return false;
        }
        i += 1;
    }
    proof {
        assert(a@ =~= b@);
    }
    true
}

/// Does `s` start with `p`?
pub fn str_has_prefix(s: &str, p: &str) -> (r: bool)
    ensures
        r == is_prefix_of(p@, s@),
{
    let sl = s.unicode_len();
    let pl = p.unicode_len();
    if pl > sl {
        return false;
    }
    let mut i: usize = 0;
    while i < pl
        invariant
            i <= pl,
            pl <= sl,
            sl == s@.len(),
            pl == p@.len(),
            forall|j: int| 0 <= j < i ==> s@[j] == p@[j],
        decreases pl - i,
    {
        if s.get_char(i) != p.get_char(i) {
            return false;
        }
        i += 1;
    }
    true
}

/// Does `s` end with `p`?
pub fn str_has_suffix(s: &str, p: &str) -> (r: bool)
    ensures
        r == is_suffix_of(p@, s@),
{
    let sl = s.unicode_len();
    let pl = p.unicode_len();
    if pl > sl {
        return false;
    }
    let off = sl - pl;
    let mut i: usize = 0;
    while i < pl
        invariant
            i <= pl,
            pl <= sl,
            off == sl - pl,
            sl == s@.len(),
            pl == p@.len(),
            forall|j: int| 0 <= j < i ==> s@[off + j] == p@[j],
        decreases pl - i,
    {
        if s.get_char(off + i) != p.get_char(i) {
            return false;
        }
        i += 1;
    }
    true
}

/// Does `n` occur anywhere inside `s`?
pub fn str_contains(s: &str, n: &str) -> (r: bool)
    ensures
        r == is_substring_of(n@, s@),
{
    let sl = s.unicode_len();
    let nl = n.unicode_len();
    if nl > sl {
        proof {
            assert(forall|at: int| !occurs_at(n@, s@, at)) by {
                assert(forall|at: int|
                    occurs_at(n@, s@, at) ==> at + n@.len() <= s@.len() && at >= 0);
            }
        }
        return false;
    }
    let mut at: usize = 0;
    while at <= sl - nl
        invariant
            nl <= sl,
            at <= sl - nl + 1,
            sl == s@.len(),
            nl == n@.len(),
            forall|k: int| 0 <= k < at ==> !occurs_at(n@, s@, k),
        decreases sl - nl - at + 1,
    {
        let mut j: usize = 0;
        let mut hit = true;
        while j < nl
            invariant
                hit ==> forall|m: int| 0 <= m < j ==> s@[at + m] == n@[m],
                !hit ==> !occurs_at(n@, s@, at as int),
                j <= nl,
                at + nl <= sl,
                sl == s@.len(),
                nl == n@.len(),
            decreases nl - j,
        {
            if s.get_char(at + j) != n.get_char(j) {
                hit = false;
                j = nl;
            } else {
                j += 1;
            }
        }
        if hit {
            proof {
                assert(occurs_at(n@, s@, at as int));
            }
            return true;
        }
        at += 1;
    }
    proof {
        assert(forall|k: int| occurs_at(n@, s@, k) ==> 0 <= k <= s@.len() - n@.len());
    }
    false
}

} // verus!
