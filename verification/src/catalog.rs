//! Catalog selection logic for Python's standalone builds: choosing the
//! latest build tag for a requested version, and the first release asset
//! matching the platform. The catalog itself is fetched by the
//! surrounding application; this module consumes the plain lists.

use vstd::prelude::*;
use vstd::string::StringExecFns;
use crate::strutil::{is_prefix_of, is_substring_of, is_suffix_of, str_contains, str_has_prefix,
    str_has_suffix};

verus! {

/// Lexicographic order on character sequences by code point, the order in
/// which build tags of one version line sort by date suffix.
pub open spec fn lex_le(a: Seq<char>, b: Seq<char>) -> bool
    decreases a.len(),
{
    if a.len() == 0 {
        true
    } else if b.len() == 0 {
        false
    } else if (a[0] as u32) == (b[0] as u32) {
        lex_le(a.drop_first(), b.drop_first())
    } else {
        (a[0] as u32) < (b[0] as u32)
    }
}

/// `lex_le` is total: any two sequences compare one way or the other.
pub proof fn lemma_lex_le_total(a: Seq<char>, b: Seq<char>)
    ensures
        lex_le(a, b) || lex_le(b, a),
    decreases a.len(),
{
    if a.len() > 0 && b.len() > 0 && (a[0] as u32) == (b[0] as u32) {
        lemma_lex_le_total(a.drop_first(), b.drop_first());
    }
}

/// `lex_le` is transitive.
pub proof fn lemma_lex_le_trans(a: Seq<char>, b: Seq<char>, c: Seq<char>)
    requires
        lex_le(a, b),
        lex_le(b, c),
    ensures
        lex_le(a, c),
    decreases a.len(),
{
    if a.len() > 0 && b.len() > 0 && c.len() > 0 && (a[0] as u32) == (b[0] as u32) && (b[0]
        as u32) == (c[0] as u32) {
        lemma_lex_le_trans(a.drop_first(), b.drop_first(), c.drop_first());
    }
}

/// Code-point-wise comparison of two string slices.
fn lex_le_str(a: &str, b: &str) -> (r: bool)
    ensures
        r == lex_le(a@, b@),
{
    let al = a.unicode_len();
    let bl = b.unicode_len();
    let mut i: usize = 0;
    proof {
        assert(a@.skip(0) =~= a@);
        assert(b@.skip(0) =~= b@);
    }
    loop
        invariant
            i <= al,
            i <= bl,
            al == a@.len(),
            bl == b@.len(),
            lex_le(a@, b@) == lex_le(a@.skip(i as int), b@.skip(i as int)),
        decreases al - i,
    {
        if i >= al {
            proof {
                assert(a@.skip(i as int).len() == 0);
            }
            return true;
        }
        if i >= bl {
            proof {
                assert(b@.skip(i as int).len() == 0);
                assert(a@.skip(i as int).len() > 0);
            }
            return false;
        }
        let ca = a.get_char(i);
        let cb = b.get_char(i);
        proof {
            assert(a@.skip(i as int)[0] == a@[i as int]);
            assert(b@.skip(i as int)[0] == b@[i as int]);
        }
        if (ca as u32) != (cb as u32) {
            return (ca as u32) < (cb as u32);
        }
        proof {
            assert(a@.skip(i as int).drop_first() =~= a@.skip(i as int + 1));
            assert(b@.skip(i as int).drop_first() =~= b@.skip(i as int + 1));
        }
        i += 1;
    }
}

/// A tag names a build of the requested version when it starts with `v`
/// followed by that version.
pub open spec fn tag_for_version(tag: Seq<char>, version: Seq<char>) -> bool {
    is_prefix_of("v"@ + version, tag)
}

/// The latest build tag for a requested version: the lexicographically
/// greatest tag starting with `v` followed by the version, `None` when no
/// tag matches.
pub fn find_latest_tag(tags: &Vec<String>, version: &str) -> (r: Option<String>)
    ensures
        r is Some <==> exists|i: int|
            0 <= i < tags@.len() && tag_for_version(tags@[i]@, version@),
        r matches Some(t) ==> tag_for_version(t@, version@),
        r matches Some(t) ==> exists|i: int| 0 <= i < tags@.len() && tags@[i]@ == t@,
        r matches Some(t) ==> forall|i: int|
            0 <= i < tags@.len() && tag_for_version(tags@[i]@, version@) ==> lex_le(
                tags@[i]@,
                t@,
            ),
{
    let pfx = String::from_str("v").concat(version);
    let mut best: Option<String> = None;
    let mut i: usize = 0;
    while i < tags.len()
        invariant
            i <= tags@.len(),
            pfx@ == "v"@ + version@,
            best is Some <==> exists|j: int|
                0 <= j < i && tag_for_version(tags@[j]@, version@),
            best matches Some(b) ==> tag_for_version(b@, version@),
            best matches Some(b) ==> exists|j: int| 0 <= j < i && tags@[j]@ == b@,
            best matches Some(b) ==> forall|j: int|
                0 <= j < i && tag_for_version(tags@[j]@, version@) ==> lex_le(tags@[j]@, b@),
        decreases tags@.len() - i,
    {
        let t = &tags[i];
        if str_has_prefix(t.as_str(), pfx.as_str()) {
            let replace = match &best {
                None => true,
                Some(b) => lex_le_str(b.as_str(), t.as_str()),
            };
            if replace {
                proof {
                    if best is Some {
                        let b = best->Some_0;
                        assert forall|j: int|
                            0 <= j < i + 1 && tag_for_version(tags@[j]@, version@) implies lex_le(
                            tags@[j]@,
                            t@,
                        ) by {
                            if j < i {
                                lemma_lex_le_trans(tags@[j]@, b@, t@);
                            } else {
                                lemma_lex_le_total(t@, t@);
                            }
                        }
                    } else {
                        lemma_lex_le_total(t@, t@);
                    }
                }
                best = Some(t.clone());
            } else {
                proof {
                    let b = best->Some_0;
                    lemma_lex_le_total(b@, t@);
                }
            }
        }
        i += 1;
    }
    best
}

/// One downloadable asset of a release: its file name and its URL.
#[derive(Debug, Clone)]
pub struct ReleaseAsset {
    pub name: String,
    pub url: String,
}

/// An asset fits when its name carries the platform identifier and it is
/// an install-only tar+zstd archive.
pub open spec fn asset_matches(name: Seq<char>, platform: Seq<char>) -> bool {
    is_substring_of(platform, name) && is_suffix_of("install_only.tar.zst"@, name)
}

/// The position of the first release asset fitting the platform, `None`
/// when no asset fits. Never guesses an alternative asset.
pub fn pick_asset(assets: &Vec<ReleaseAsset>, platform: &str) -> (r: Option<usize>)
    ensures
        r is Some <==> exists|i: int|
            0 <= i < assets@.len() && asset_matches(assets@[i].name@, platform@),
        r matches Some(i) ==> i < assets@.len() && asset_matches(assets@[i as int].name@,
            platform@) && (forall|j: int|
            0 <= j < i ==> !asset_matches(assets@[j].name@, platform@)),
{
    let mut i: usize = 0;
    while i < assets.len()
        invariant
            i <= assets@.len(),
            forall|j: int| 0 <= j < i ==> !asset_matches(assets@[j].name@, platform@),
        decreases assets@.len() - i,
    {
        let a = &assets[i];
        if str_contains(a.name.as_str(), platform) && str_has_suffix(
            a.name.as_str(),
            "install_only.tar.zst",
        ) {
            return Some(i);
        }
        i += 1;
    }
    None
}

/// The curated list of Python versions shown by `list-remote`; patch
/// builds beyond these are found by the install path itself.
pub fn python_curated_versions() -> (r: Vec<String>)
    ensures
        r@.len() == 5,
        r@[0]@ == "3.12.4"@,
        r@[1]@ == "3.11.9"@,
        r@[2]@ == "3.10.14"@,
        r@[3]@ == "3.9.19"@,
        r@[4]@ == "3.8.19"@,
{
    let mut v: Vec<String> = Vec::new();
    v.push(String::from_str("3.12.4"));
    v.push(String::from_str("3.11.9"));
    v.push(String::from_str("3.10.14"));
    v.push(String::from_str("3.9.19"));
    v.push(String::from_str("3.8.19"));
    v
}

} // verus!
