//! Version-string normalization, one rule per runtime: Node and Bun ensure
//! a leading `v`, Python strips leading `v` markers, Go strips leading `go`
//! markers. Normalization is deterministic and idempotent.

use vstd::prelude::*;
use vstd::string::StringExecFns;
use crate::Runtime;

verus! {

/// Ensure a single leading `v`.
pub open spec fn ensure_v(s: Seq<char>) -> Seq<char> {
    if s.len() > 0 && s[0] == 'v' {
        s
    } else {
        "v"@ + s
    }
}

/// Strip every leading `v`.
pub open spec fn strip_v(s: Seq<char>) -> Seq<char>
    decreases s.len(),
{
    if s.len() > 0 && s[0] == 'v' {
        strip_v(s.drop_first())
    } else {
        s
    }
}

/// Strip every leading `go` pair.
pub open spec fn strip_go(s: Seq<char>) -> Seq<char>
    decreases s.len(),
{
    if s.len() >= 2 && s[0] == 'g' && s[1] == 'o' {
        strip_go(s.skip(2))
    } else {
        s
    }
}

/// The canonical form of a version string for the given runtime.
pub open spec fn normalized(rt: Runtime, s: Seq<char>) -> Seq<char> {
    match rt {
        Runtime::Node => ensure_v(s),
        Runtime::Bun => ensure_v(s),
        Runtime::Python => strip_v(s),
        Runtime::Go => strip_go(s),
    }
}

/// Normalizing an already-normalized string yields itself.
pub proof fn lemma_normalize_idempotent(rt: Runtime, s: Seq<char>)
    ensures
        normalized(rt, normalized(rt, s)) == normalized(rt, s),
{
    match rt {
        Runtime::Node | Runtime::Bun => {
            if !(s.len() > 0 && s[0] == 'v') {
                reveal_strlit("v");
                assert(("v"@ + s).len() > 0);
                assert(("v"@ + s)[0] == 'v');
            }
        },
        Runtime::Python => {
            lemma_strip_v_idempotent(s);
        },
        Runtime::Go => {
            lemma_strip_go_idempotent(s);
        },
    }
}

proof fn lemma_strip_v_idempotent(s: Seq<char>)
    ensures
        strip_v(strip_v(s)) == strip_v(s),
    decreases s.len(),
{
    if s.len() > 0 && s[0] == 'v' {
        lemma_strip_v_idempotent(s.drop_first());
    }
}

proof fn lemma_strip_go_idempotent(s: Seq<char>)
    ensures
        strip_go(strip_go(s)) == strip_go(s),
    decreases s.len(),
{
    if s.len() >= 2 && s[0] == 'g' && s[1] == 'o' {
        lemma_strip_go_idempotent(s.skip(2));
    }
}

/// Canonical version string for the given runtime.
pub fn normalize(rt: Runtime, s: &str) -> (r: String)
    ensures
        r@ == normalized(rt, s@),
{
    match rt {
        Runtime::Node => normalize_ensure_v(s),
        Runtime::Bun => normalize_ensure_v(s),
        Runtime::Python => normalize_strip_v(s),
        Runtime::Go => normalize_strip_go(s),
    }
}

/// Whether a directory entry under a runtime root names an installed
/// version rather than the `current` slot: version directories are listed
/// only when they carry the leading `v` marker.
pub fn is_version_entry(name: &str) -> (r: bool)
    ensures
        r == (name@.len() > 0 && name@[0] == 'v'),
{
    let len = name.unicode_len();
    if len > 0 {
        name.get_char(0) == 'v'
    } else {
        false
    }
}

fn normalize_ensure_v(s: &str) -> (r: String)
    ensures
        r@ == ensure_v(s@),
{
    let len = s.unicode_len();
    if len > 0 && s.get_char(0) == 'v' {
        String::from_str(s)
    } else {
        String::from_str("v").concat(s)
    }
}

fn normalize_strip_v(s: &str) -> (r: String)
    ensures
        r@ == strip_v(s@),
{
    let len = s.unicode_len();
    let mut i: usize = 0;
    let mut stop = false;
    proof {
        assert(s@.skip(0) =~= s@);
    }
    while !stop && i < len
        invariant
            i <= len,
            len == s@.len(),
            strip_v(s@.skip(i as int)) == strip_v(s@),
            stop ==> i < len && s@[i as int] != 'v',
        decreases len - i + (if stop { 0int } else { 1 }),
    {
        if s.get_char(i) == 'v' {
            proof {
                let t = s@.skip(i as int);
                assert(t[0] == 'v');
                assert(t.drop_first() =~= s@.skip(i as int + 1));
            }
            i += 1;
        } else {
            stop = true;
        }
    }
    let r = s.substring_char(i, len);
    proof {
        let t = s@.skip(i as int);
        assert(r@ =~= t);
        if !stop {
            assert(t.len() == 0);
        }
        assert(strip_v(t) == t);
    }
    String::from_str(r)
}

fn normalize_strip_go(s: &str) -> (r: String)
    ensures
        r@ == strip_go(s@),
{
    let len = s.unicode_len();
    let mut i: usize = 0;
    let mut stop = false;
    proof {
        assert(s@.skip(0) =~= s@);
    }
    while !stop && len - i > 1
        invariant
            i <= len,
            len == s@.len(),
            strip_go(s@.skip(i as int)) == strip_go(s@),
            stop ==> len - i > 1 && !(s@[i as int] == 'g' && s@[i as int + 1] == 'o'),
        decreases len - i + (if stop { 0int } else { 1 }),
    {
        if s.get_char(i) == 'g' && s.get_char(i + 1) == 'o' {
            proof {
                let t = s@.skip(i as int);
                assert(t.len() >= 2);
                assert(t[0] == 'g');
                assert(t[1] == 'o');
                assert(t.skip(2) =~= s@.skip(i as int + 2));
            }
            i += 2;
        } else {
            stop = true;
        }
    }
    let r = s.substring_char(i, len);
    proof {
        let t = s@.skip(i as int);
        assert(r@ =~= t);
        if !stop {
            assert(t.len() < 2);
        }
        assert(strip_go(t) == t);
    }
    String::from_str(r)
}

} // verus!
