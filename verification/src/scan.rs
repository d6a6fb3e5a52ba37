//! Byte-sequence scanning primitives.
//!
//! The modem protocol is recognised by locating tags and terminators in a
//! byte stream.  This module gives the spec-level notions of "prefix" and
//! "first occurrence of a pattern", executable scanners proved against
//! them, and the lemmas about prefixes and extensions of the scanned
//! sequence on which the digester's framing theorems rest.

use vstd::prelude::*;

verus! {

/// `pat` occurs in `s` at position `i`.
pub open spec fn matches_at(s: Seq<u8>, pat: Seq<u8>, i: int) -> bool {
    0 <= i && i + pat.len() <= s.len() && s.subrange(i, i + pat.len() as int) == pat
}

/// `p` is a prefix of `s`.
pub open spec fn has_prefix(s: Seq<u8>, p: Seq<u8>) -> bool {
    p.len() <= s.len() && s.subrange(0, p.len() as int) == p
}

/// Position of the first occurrence of `pat` in `s`, or `-1` if none.
pub open spec fn find_sub(s: Seq<u8>, pat: Seq<u8>) -> int
    decreases s.len(),
{
    if pat.len() == 0 {
        0
    } else if s.len() < pat.len() {
        -1
    } else if matches_at(s, pat, 0) {
        0
    } else if find_sub(s.skip(1), pat) < 0 {
        -1
    } else {
        find_sub(s.skip(1), pat) + 1
    }
}

/// `i` is the first occurrence of `pat` in `s`.
pub open spec fn is_first_match(s: Seq<u8>, pat: Seq<u8>, i: int) -> bool {
    matches_at(s, pat, i) && forall|j: int| 0 <= j < i ==> !matches_at(s, pat, j)
}

/// Shifting a match across `skip(1)`.
proof fn lemma_matches_skip(s: Seq<u8>, pat: Seq<u8>, j: int)
    requires
        s.len() >= 1,
        0 <= j,
    ensures
        matches_at(s, pat, j + 1) <==> matches_at(s.skip(1), pat, j),
{
    if 0 <= j && j + pat.len() <= s.skip(1).len() {
        assert(s.skip(1).subrange(j, j + pat.len() as int)
            =~= s.subrange(j + 1, j + 1 + pat.len() as int));
    }
}

/// `find_sub` returns exactly the first occurrence, or `-1` if there is none.
pub proof fn lemma_find_sub(s: Seq<u8>, pat: Seq<u8>)
    ensures
        find_sub(s, pat) >= 0 ==> is_first_match(s, pat, find_sub(s, pat)),
        find_sub(s, pat) < 0 ==> forall|j: int| !matches_at(s, pat, j),
    decreases s.len(),
{
    if pat.len() == 0 {
        assert(matches_at(s, pat, 0)) by {
            assert(s.subrange(0, 0) =~= pat);
        }
    } else if s.len() < pat.len() {
        assert forall|j: int| !matches_at(s, pat, j) by {}
    } else if matches_at(s, pat, 0) {
    } else {
        lemma_find_sub(s.skip(1), pat);
        let r = find_sub(s.skip(1), pat);
        if r < 0 {
            assert forall|j: int| !matches_at(s, pat, j) by {
                if j >= 1 {
                    lemma_matches_skip(s, pat, j - 1);
                }
            }
        } else {
            lemma_matches_skip(s, pat, r);
            assert(matches_at(s, pat, r + 1));
            assert forall|j: int| 0 <= j < r + 1 implies !matches_at(s, pat, j) by {
                if j >= 1 {
                    lemma_matches_skip(s, pat, j - 1);
                }
            }
        }
    }
}

/// The first occurrence is unique, so any first match pins `find_sub` down.
pub proof fn lemma_first_match_is_find_sub(s: Seq<u8>, pat: Seq<u8>, i: int)
    requires
        is_first_match(s, pat, i),
    ensures
        find_sub(s, pat) == i,
{
    lemma_find_sub(s, pat);
    let f = find_sub(s, pat);
    if f < 0 {
        assert(!matches_at(s, pat, i));
    } else if f < i {
        assert(!matches_at(s, pat, f));
    } else if i < f {
        assert(!matches_at(s, pat, i));
    }
}

/// A match lying wholly inside a prefix of `s` is a match in the prefix, and
/// conversely.
pub proof fn lemma_matches_in_prefix(s: Seq<u8>, pat: Seq<u8>, k: int, j: int)
    requires
        0 <= k <= s.len(),
        0 <= j,
        j + pat.len() <= k,
    ensures
        matches_at(s.subrange(0, k), pat, j) <==> matches_at(s, pat, j),
{
    assert(s.subrange(0, k).subrange(j, j + pat.len() as int)
        =~= s.subrange(j, j + pat.len() as int));
}

/// In a prefix cut before the first occurrence ends, the pattern does not
/// occur at all.
pub proof fn lemma_find_sub_prefix_none(s: Seq<u8>, pat: Seq<u8>, k: int)
    requires
        0 <= k <= s.len(),
        pat.len() >= 1,
        find_sub(s, pat) < 0 || k < find_sub(s, pat) + pat.len(),
    ensures
        find_sub(s.subrange(0, k), pat) < 0,
{
    lemma_find_sub(s, pat);
    lemma_find_sub(s.subrange(0, k), pat);
    let fp = find_sub(s.subrange(0, k), pat);
    if fp >= 0 {
        lemma_matches_in_prefix(s, pat, k, fp);
        assert(matches_at(s, pat, fp));
        let f = find_sub(s, pat);
        assert(f >= 0);
        if fp < f {
            assert(!matches_at(s, pat, fp));
        } else {
            assert(fp + pat.len() <= k);
            assert(k < f + pat.len());
            assert(fp < f);
        }
    }
}

/// A first occurrence wholly inside `s` stays the first occurrence when more
/// bytes are appended.
pub proof fn lemma_find_sub_extend(s: Seq<u8>, x: Seq<u8>, pat: Seq<u8>)
    requires
        find_sub(s, pat) >= 0,
    ensures
        find_sub(s + x, pat) == find_sub(s, pat),
{
    lemma_find_sub(s, pat);
    let f = find_sub(s, pat);
    assert((s + x).subrange(f, f + pat.len() as int) =~= s.subrange(f, f + pat.len() as int));
    assert(matches_at(s + x, pat, f));
    assert forall|j: int| 0 <= j < f implies !matches_at(s + x, pat, j) by {
        assert(f + pat.len() <= s.len());
        assert(j + pat.len() <= s.len());
        assert((s + x).subrange(j, j + pat.len() as int)
            =~= s.subrange(j, j + pat.len() as int));
        assert(!matches_at(s, pat, j));
    }
    lemma_first_match_is_find_sub(s + x, pat, f);
}

/// Does `s` start with `p`?
pub fn starts_with(s: &[u8], p: &[u8]) -> (r: bool)
    ensures
        r == has_prefix(s@, p@),
{
    if s.len() < p.len() {
        return false;
    }
    let mut i: usize = 0;
    while i < p.len()
        invariant
            i <= p.len(),
            p@.len() <= s@.len(),
            forall|j: int| 0 <= j < i ==> s@[j] == p@[j],
        decreases p.len() - i,
    {
        if s[i] != p[i] {
            proof {
                assert(s@.subrange(0, p@.len() as int)[i as int] == s@[i as int]);
            }
            return false;
        }
        i = i + 1;
    }
    proof {
        assert(s@.subrange(0, p@.len() as int) =~= p@);
    }
    true
}

/// Is `s` a prefix of `t`?
pub fn is_prefix(s: &[u8], t: &[u8]) -> (r: bool)
    ensures
        r == has_prefix(t@, s@),
{
    starts_with(t, s)
}

/// First occurrence of `pat` in `s`, as `find_sub` gives it.
pub fn find(s: &[u8], pat: &[u8]) -> (r: Option<usize>)
    requires
        pat@.len() >= 1,
    ensures
        match r {
            Some(i) => find_sub(s@, pat@) == i as int && i + pat@.len() <= s@.len(),
            None => find_sub(s@, pat@) < 0,
        },
{
    if s.len() < pat.len() {
        proof {
            lemma_find_sub(s@, pat@);
            if find_sub(s@, pat@) >= 0 {
                assert(matches_at(s@, pat@, find_sub(s@, pat@)));
            }
        }
        return None;
    }
    let mut i: usize = 0;
    let last: usize = s.len() - pat.len();
    while i <= last
        invariant
            i <= last + 1,
            last == s@.len() - pat@.len(),
            pat@.len() >= 1,
            s@.len() >= pat@.len(),
            s@.len() <= usize::MAX,
            forall|j: int| 0 <= j < i ==> !matches_at(s@, pat@, j),
        decreases last - i + 1,
    {
        let mut k: usize = 0;
        let mut ok: bool = true;
        while k < pat.len()
            invariant
                k <= pat@.len(),
                i + pat@.len() <= s@.len(),
                s@.len() <= usize::MAX,
                ok ==> forall|j: int| 0 <= j < k ==> s@[i + j] == pat@[j],
                !ok ==> !matches_at(s@, pat@, i as int),
            decreases pat.len() - k,
        {
            if s[i + k] != pat[k] {
                proof {
                    if matches_at(s@, pat@, i as int) {
                        assert(s@.subrange(i as int, i + pat@.len() as int)[k as int]
                            == s@[i + k]);
                    }
                }
                ok = false;
                k = pat.len();
            } else {
                k = k + 1;
            }
        }
        if ok {
            proof {
                assert(s@.subrange(i as int, i + pat@.len() as int) =~= pat@);
                assert(is_first_match(s@, pat@, i as int));
                lemma_first_match_is_find_sub(s@, pat@, i as int);
            }
            return Some(i);
        }
        i = i + 1;
    }
    proof {
        lemma_find_sub(s@, pat@);
        if find_sub(s@, pat@) >= 0 {
            let f = find_sub(s@, pat@);
            assert(matches_at(s@, pat@, f));
            assert(f <= last as int);
            assert(!matches_at(s@, pat@, f));
        }
    }
    None
}

} // verus!
