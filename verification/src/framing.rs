//! The digester's framing laws.
//!
//! Two theorems pin the digester's streaming behaviour down.
//!
//! **Prefix safety**: while the first record of the input is still
//! incomplete, the digester classifies nothing and consumes nothing —
//! however the bytes are cut, feeding a strict prefix of the record
//! returns "nothing yet".
//!
//! **Exact framing**: a complete record keeps its classification and its
//! length when more bytes arrive after it; the digester never reads past
//! the first record.
//!
//! Both hold with one exception, inherited from the rule order: the
//! generic rules search for their terminators anywhere in the buffer, so
//! a record that *embeds* a numbered error pattern, a generic error
//! terminator, or (for the error classes) a later `\r\nOK\r\n`, can be
//! re-classified depending on how much of the stream has arrived.  Cut
//! before its closing `OK`, the response record `a: ERROR(-1)\r\nOK\r\n`
//! reads as a numbered error; once the terminator arrives the whole of
//! it is one response body.  The modem emits no such record — no reply
//! body carries an error pattern — and the theorems state the exception
//! exactly.

use vstd::prelude::*;

use crate::digester::{
    custom_error_step, custom_success_step, digest_spec, err_scan, generic_error_step,
    generic_success_step, is_partial, reset_step, spec_err_codes, spec_err_token,
    stray_ok_step, strip_step, subkey_step, urc_step, urc_tag_step, whole_step, DigestView,
    RuleStep,
};
use crate::scan::{
    find_sub, has_prefix, lemma_find_sub, lemma_find_sub_extend, lemma_find_sub_prefix_none,
    lemma_first_match_is_find_sub, lemma_matches_in_prefix, matches_at,
};
use crate::tags::{
    spec_colon_sp, spec_crlf, spec_error_term, spec_ok_line, spec_ok_term, spec_reset_term,
};

verus! {

/// The first occurrence, when it lies wholly inside a prefix, is the
/// first occurrence of the prefix too.
pub proof fn lemma_find_sub_prefix_same(s: Seq<u8>, pat: Seq<u8>, k: int)
    requires
        0 <= k <= s.len(),
        find_sub(s, pat) >= 0,
        find_sub(s, pat) + pat.len() <= k,
    ensures
        find_sub(s.subrange(0, k), pat) == find_sub(s, pat),
{
    lemma_find_sub(s, pat);
    let f = find_sub(s, pat);
    let p = s.subrange(0, k);
    lemma_matches_in_prefix(s, pat, k, f);
    assert forall|j: int| 0 <= j < f implies !matches_at(p, pat, j) by {
        lemma_matches_in_prefix(s, pat, k, j);
    }
    lemma_first_match_is_find_sub(p, pat, f);
}

/// Prefix relations transfer between the input and its cut.
pub proof fn lemma_prefix_transfer(s: Seq<u8>, k: int, t: Seq<u8>)
    requires
        0 <= k <= s.len(),
    ensures
        t.len() <= k ==> (has_prefix(s.subrange(0, k), t) <==> has_prefix(s, t)),
        t.len() > k ==> !has_prefix(s.subrange(0, k), t),
        has_prefix(s, t) && k < t.len() ==> is_partial(s.subrange(0, k), t),
        !has_prefix(s, t) && !is_partial(s, t) ==> !has_prefix(s.subrange(0, k), t),
{
    let p = s.subrange(0, k);
    if t.len() <= k {
        assert(p.subrange(0, t.len() as int) =~= s.subrange(0, t.len() as int));
    }
    if has_prefix(s, t) && k < t.len() {
        assert(t.subrange(0, k) =~= p) by {
            assert(forall|i: int| 0 <= i < k ==> s.subrange(0, t.len() as int)[i] == s[i]);
        }
    }
}

/// A rule that neither applies nor waits on `s` stays that way when more
/// bytes arrive.
pub proof fn lemma_nomatch_extend(s: Seq<u8>, x: Seq<u8>, t: Seq<u8>)
    requires
        !has_prefix(s, t),
        !is_partial(s, t),
    ensures
        !has_prefix(s + x, t),
        !is_partial(s + x, t),
{
    let e = s + x;
    if s.len() >= t.len() {
        assert(e.subrange(0, t.len() as int) =~= s.subrange(0, t.len() as int));
    } else {
        if has_prefix(e, t) {
            assert(t.subrange(0, s.len() as int) =~= s) by {
                assert(forall|i: int| 0 <= i < s.len()
                    ==> e.subrange(0, t.len() as int)[i] == s[i]);
            }
        }
        if is_partial(e, t) {
            assert(t.subrange(0, s.len() as int) =~= s) by {
                assert(forall|i: int| 0 <= i < s.len()
                    ==> t.subrange(0, e.len() as int)[i] == t[i]);
            }
        }
    }
}

/// Prefix behaviour of the stray-`OK` rule.
pub proof fn lemma_stray_prefix(s: Seq<u8>, k: int)
    requires
        0 <= k <= s.len(),
    ensures
        stray_ok_step(s) matches RuleStep::Match(v, c) && k < c
            ==> stray_ok_step(s.subrange(0, k)) is Incomplete,
        stray_ok_step(s) is Miss ==> !(stray_ok_step(s.subrange(0, k)) is Match),
{
    lemma_prefix_transfer(s, k, spec_ok_line());
}

/// Prefix behaviour of one URC tag rule.
pub proof fn lemma_urc_tag_prefix(s: Seq<u8>, k: int, tag: Seq<u8>)
    requires
        0 <= k <= s.len(),
        tag.len() >= 1,
    ensures
        urc_tag_step(s, tag) matches RuleStep::Match(v, c) && k < c
            ==> urc_tag_step(s.subrange(0, k), tag) is Incomplete,
        urc_tag_step(s, tag) is Miss ==> !(urc_tag_step(s.subrange(0, k), tag) is Match),
{
    let p = s.subrange(0, k);
    lemma_prefix_transfer(s, k, tag);
    match urc_tag_step(s, tag) {
        RuleStep::Match(v, c) => {
            if k < c {
                let t = find_sub(s, spec_crlf());
                lemma_find_sub_prefix_none(s, spec_crlf(), k);
            }
        },
        RuleStep::Miss => {
            // A miss means the tag is not there, which a cut cannot change.
        },
        RuleStep::Incomplete => {},
    }
}

/// Prefix behaviour of a strip-style reply rule.
pub proof fn lemma_strip_prefix(s: Seq<u8>, k: int, tag: Seq<u8>)
    requires
        0 <= k <= s.len(),
        tag.len() >= 1,
    ensures
        strip_step(s, tag) matches RuleStep::Match(v, c) && k < c
            ==> strip_step(s.subrange(0, k), tag) is Incomplete,
        strip_step(s, tag) is Miss ==> !(strip_step(s.subrange(0, k), tag) is Match),
{
    let p = s.subrange(0, k);
    lemma_prefix_transfer(s, k, tag);
    match strip_step(s, tag) {
        RuleStep::Match(v, c) => {
            if k < c {
                lemma_find_sub_prefix_none(s, spec_crlf(), k);
            }
        },
        RuleStep::Miss => {
            if has_prefix(s, tag) {
                // The defensive miss: the first line break sits inside the
                // tag bytes, where it stays for every cut that can match.
                let ts = find_sub(s, spec_crlf());
                if strip_step(p, tag) is Match {
                    let tp = find_sub(p, spec_crlf());
                    lemma_find_sub(p, spec_crlf());
                    assert(matches_at(p, spec_crlf(), tp));
                    lemma_find_sub_prefix_same(s, spec_crlf(), k);
                }
            }
        },
        RuleStep::Incomplete => {},
    }
}

/// Prefix behaviour of a whole-line reply rule.
pub proof fn lemma_whole_prefix(s: Seq<u8>, k: int, tag: Seq<u8>)
    requires
        0 <= k <= s.len(),
        tag.len() >= 1,
    ensures
        whole_step(s, tag) matches RuleStep::Match(v, c) && k < c
            ==> whole_step(s.subrange(0, k), tag) is Incomplete,
        whole_step(s, tag) is Miss ==> !(whole_step(s.subrange(0, k), tag) is Match),
{
    let p = s.subrange(0, k);
    lemma_prefix_transfer(s, k, tag);
    match whole_step(s, tag) {
        RuleStep::Match(v, c) => {
            if k < c {
                lemma_find_sub_prefix_none(s, spec_crlf(), k);
            }
        },
        RuleStep::Miss => {},
        RuleStep::Incomplete => {},
    }
}

/// Prefix behaviour of a subkey reply rule.
pub proof fn lemma_subkey_prefix(s: Seq<u8>, k: int, tag: Seq<u8>)
    requires
        0 <= k <= s.len(),
        tag.len() >= 1,
    ensures
        subkey_step(s, tag) matches RuleStep::Match(v, c) && k < c
            ==> subkey_step(s.subrange(0, k), tag) is Incomplete,
        subkey_step(s, tag) is Miss ==> !(subkey_step(s.subrange(0, k), tag) is Match),
{
    let p = s.subrange(0, k);
    lemma_prefix_transfer(s, k, tag);
    match subkey_step(s, tag) {
        RuleStep::Match(v, c) => {
            if k < c {
                lemma_find_sub_prefix_none(s, spec_crlf(), k);
            }
        },
        RuleStep::Miss => {
            if has_prefix(s, tag) {
                let ts = find_sub(s, spec_crlf());
                if subkey_step(p, tag) is Match {
                    let tp = find_sub(p, spec_crlf());
                    lemma_find_sub(p, spec_crlf());
                    assert(matches_at(p, spec_crlf(), tp));
                    lemma_find_sub_prefix_same(s, spec_crlf(), k);
                }
            }
        },
        RuleStep::Incomplete => {},
    }
}

/// Prefix behaviour of the reset preamble rule.
pub proof fn lemma_reset_prefix(s: Seq<u8>, k: int)
    requires
        0 <= k <= s.len(),
    ensures
        reset_step(s) matches RuleStep::Match(v, c) && k < c
            ==> reset_step(s.subrange(0, k)) is Incomplete,
        reset_step(s) is Miss ==> !(reset_step(s.subrange(0, k)) is Match),
{
    let p = s.subrange(0, k);
    let tag = crate::tags::spec_reset_tag();
    lemma_prefix_transfer(s, k, tag);
    match reset_step(s) {
        RuleStep::Match(v, c) => {
            if k < c {
                lemma_find_sub_prefix_none(s, spec_reset_term(), k);
            }
        },
        RuleStep::Miss => {
            if has_prefix(s, tag) {
                let ts = find_sub(s, spec_reset_term());
                if reset_step(p) is Match {
                    let tp = find_sub(p, spec_reset_term());
                    lemma_find_sub(p, spec_reset_term());
                    assert(matches_at(p, spec_reset_term(), tp));
                    lemma_find_sub_prefix_same(s, spec_reset_term(), k);
                }
            }
        },
        RuleStep::Incomplete => {},
    }
}

/// Prefix behaviour of the whole URC rule.
pub proof fn lemma_urc_prefix(s: Seq<u8>, k: int)
    requires
        0 <= k <= s.len(),
    ensures
        urc_step(s) matches RuleStep::Match(v, c) && k < c
            ==> urc_step(s.subrange(0, k)) is Incomplete,
        urc_step(s) is Miss ==> !(urc_step(s.subrange(0, k)) is Match),
{
    lemma_urc_tag_prefix(s, k, crate::tags::spec_join_tag());
    lemma_urc_tag_prefix(s, k, crate::tags::spec_msghex_tag());
    lemma_urc_tag_prefix(s, k, crate::tags::spec_cmsghex_tag());
    lemma_urc_tag_prefix(s, k, crate::tags::spec_msg_tag());
}

/// Prefix behaviour of the whole reply envelope rule.
pub proof fn lemma_custom_prefix(s: Seq<u8>, k: int)
    requires
        0 <= k <= s.len(),
    ensures
        custom_success_step(s) matches RuleStep::Match(v, c) && k < c
            ==> custom_success_step(s.subrange(0, k)) is Incomplete,
        custom_success_step(s) is Miss
            ==> !(custom_success_step(s.subrange(0, k)) is Match),
{
    lemma_strip_prefix(s, k, crate::tags::spec_at_tag());
    lemma_whole_prefix(s, k, crate::tags::spec_ate_tag());
    lemma_reset_prefix(s, k);
    lemma_strip_prefix(s, k, crate::tags::spec_ver_tag());
    lemma_subkey_prefix(s, k, crate::tags::spec_id_tag());
    lemma_strip_prefix(s, k, crate::tags::spec_mode_tag());
    lemma_strip_prefix(s, k, crate::tags::spec_dr_tag());
    lemma_strip_prefix(s, k, crate::tags::spec_class_tag());
    lemma_strip_prefix(s, k, crate::tags::spec_adr_tag());
    lemma_strip_prefix(s, k, crate::tags::spec_lw_tag());
    lemma_subkey_prefix(s, k, crate::tags::spec_key_tag());
    lemma_whole_prefix(s, k, crate::tags::spec_join_std_tag());
    lemma_strip_prefix(s, k, crate::tags::spec_recvb_tag());
    lemma_whole_prefix(s, k, crate::tags::spec_up_cnt_tag());
    lemma_whole_prefix(s, k, crate::tags::spec_down_cnt_tag());
}

/// Prefix behaviour of the numbered-error code scan.
pub proof fn lemma_err_scan_prefix(rest: Seq<u8>, j: int, i: nat)
    requires
        0 <= j <= rest.len(),
        i <= spec_err_codes().len(),
    ensures
        err_scan(rest, i) matches RuleStep::Match(v, c) && j < c
            ==> err_scan(rest.subrange(0, j), i) is Incomplete,
        !(err_scan(rest, i) is Match) ==> !(err_scan(rest.subrange(0, j), i) is Match),
    decreases spec_err_codes().len() - i,
{
    let p = rest.subrange(0, j);
    if i < spec_err_codes().len() {
        let n = spec_err_codes()[i as int];
        let pat = spec_err_token(n) + spec_crlf();
        lemma_prefix_transfer(rest, j, pat);
        if has_prefix(rest, pat) {
            // The scan matches here; a cut shorter than the pattern waits.
        } else if is_partial(rest, pat) {
            // The scan waits here; a shorter cut still agrees with the
            // pattern, so it waits too.
            if j < pat.len() {
                if has_prefix(p, pat) {
                    assert(false);
                }
                assert(is_partial(p, pat)) by {
                    assert(pat.subrange(0, j) =~= p) by {
                        assert(forall|i2: int| 0 <= i2 < j
                            ==> pat.subrange(0, rest.len() as int)[i2] == pat[i2]);
                    }
                }
            } else {
                assert(false) by {
                    assert(rest.len() < pat.len());
                }
            }
        } else {
            lemma_err_scan_prefix(rest, j, i + 1);
            // The cut might agree with this pattern's front even though
            // the full input does not; that only makes the scan wait.
        }
    }
}

/// Prefix behaviour of the numbered-error rule.
pub proof fn lemma_custom_error_prefix(s: Seq<u8>, k: int)
    requires
        0 <= k <= s.len(),
    ensures
        custom_error_step(s) matches RuleStep::Match(v, c) && k < c
            ==> custom_error_step(s.subrange(0, k)) is Incomplete,
        !(custom_error_step(s) is Match)
            ==> !(custom_error_step(s.subrange(0, k)) is Match),
{
    let p = s.subrange(0, k);
    let sep = spec_colon_sp();
    let q = find_sub(s, sep);
    lemma_find_sub(s, sep);
    lemma_find_sub(p, sep);
    if q < 0 {
        // No separator in the input, hence none in any cut of it.
        let qp = find_sub(p, sep);
        if qp >= 0 {
            assert(matches_at(p, sep, qp));
            lemma_matches_in_prefix(s, sep, k, qp);
        }
    } else {
        if q + 2 <= k {
            lemma_find_sub_prefix_same(s, sep, k);
            let rest = s.skip(q + 2);
            let restp = p.skip(q + 2);
            assert(restp =~= rest.subrange(0, k - q - 2));
            lemma_err_scan_prefix(rest, k - q - 2, 0);
            match custom_error_step(s) {
                RuleStep::Match(v, c) => {
                    if k < c {
                        // The scan's own consumed count is c - q - 2.
                    }
                },
                _ => {},
            }
        } else {
            // The separator is not wholly inside the cut, so the cut has
            // none at all and the rule waits.
            let qp = find_sub(p, sep);
            if qp >= 0 {
                assert(matches_at(p, sep, qp));
                lemma_matches_in_prefix(s, sep, k, qp);
                assert(matches_at(s, sep, qp));
                assert(qp >= q);
            }
        }
    }
}

/// The digester classified the input by the generic success terminator:
/// no tagged rule applied, and a `\r\nOK\r\n` closed the record.
pub open spec fn is_generic_success_class(s: Seq<u8>) -> bool {
    stray_ok_step(s) is Miss && urc_step(s) is Miss && custom_success_step(s) is Miss
        && generic_success_step(s) is Match
}

/// **Prefix safety.**  While the first record is incomplete the digester
/// classifies nothing and consumes nothing: every cut strictly shorter
/// than the record classifies as nothing with zero consumed.
///
/// For a record closed by the generic `\r\nOK\r\n` terminator this needs
/// the record not to embed an error reply of either shape ahead of its
/// own terminator — the error rules would recognise such an embedded
/// record first while the terminator has not arrived.
pub proof fn lemma_prefix_safety(s: Seq<u8>, k: int)
    requires
        0 <= k <= s.len(),
        digest_spec(s).1 > 0,
        k < digest_spec(s).1,
        is_generic_success_class(s) ==> !(custom_error_step(
            s.subrange(0, digest_spec(s).1 - 1)) is Match),
        is_generic_success_class(s) ==> find_sub(
            s.subrange(0, digest_spec(s).1 - 1), spec_error_term()) < 0,
    ensures
        digest_spec(s.subrange(0, k)) == (DigestView::Nothing, 0int),
{
    let p = s.subrange(0, k);
    let c = digest_spec(s).1;
    lemma_stray_prefix(s, k);
    match stray_ok_step(s) {
        RuleStep::Match(v0, c0) => {
            assert(c == c0);
        },
        RuleStep::Incomplete => {
            assert(false);
        },
        RuleStep::Miss => {
            if stray_ok_step(p) is Incomplete {
            } else {
                lemma_urc_prefix(s, k);
                match urc_step(s) {
                    RuleStep::Match(v1, c1) => {
                        assert(c == c1);
                    },
                    RuleStep::Incomplete => {
                        assert(false);
                    },
                    RuleStep::Miss => {
                        if urc_step(p) is Incomplete {
                        } else {
                            lemma_custom_prefix(s, k);
                            match custom_success_step(s) {
                                RuleStep::Match(v2, c2) => {
                                    assert(c == c2);
                                },
                                RuleStep::Incomplete => {
                                    assert(false);
                                },
                                RuleStep::Miss => {
                                    if custom_success_step(p) is Incomplete {
                                    } else {
                                        lemma_after_custom(s, k);
                                    }
                                },
                            }
                        }
                    },
                }
            }
        },
    }
}

/// The tail of the prefix-safety argument: the tagged rules all missed,
/// so the generic rules decide.
proof fn lemma_after_custom(s: Seq<u8>, k: int)
    requires
        0 <= k <= s.len(),
        digest_spec(s).1 > 0,
        k < digest_spec(s).1,
        stray_ok_step(s) is Miss,
        urc_step(s) is Miss,
        custom_success_step(s) is Miss,
        !(stray_ok_step(s.subrange(0, k)) is Match),
        !(urc_step(s.subrange(0, k)) is Match),
        stray_ok_step(s.subrange(0, k)) is Miss,
        urc_step(s.subrange(0, k)) is Miss,
        custom_success_step(s.subrange(0, k)) is Miss,
        is_generic_success_class(s) ==> !(custom_error_step(
            s.subrange(0, digest_spec(s).1 - 1)) is Match),
        is_generic_success_class(s) ==> find_sub(
            s.subrange(0, digest_spec(s).1 - 1), spec_error_term()) < 0,
    ensures
        digest_spec(s.subrange(0, k)) == (DigestView::Nothing, 0int),
{
    let p = s.subrange(0, k);
    let c = digest_spec(s).1;
    match generic_success_step(s) {
        RuleStep::Match(v3, c3) => {
            assert(c == c3);
            // The terminator ends the record, so no cut holds one.
            let f = find_sub(s, spec_ok_term());
            lemma_find_sub(s, spec_ok_term());
            assert(matches_at(s, spec_ok_term(), f));
            assert(c == f + 6 && c <= s.len());
            lemma_find_sub_prefix_none(s, spec_ok_term(), k);
            assert(generic_success_step(p) is Miss);
            // The side conditions rule the error rules out on the cut.
            let q = s.subrange(0, c - 1);
            assert(p =~= q.subrange(0, k));
            lemma_custom_error_prefix(q, k);
            assert(!(custom_error_step(p) is Match));
            if custom_error_step(p) is Miss {
                let fe = find_sub(p, spec_error_term());
                lemma_find_sub(p, spec_error_term());
                lemma_find_sub(q, spec_error_term());
                if fe >= 0 {
                    assert(matches_at(p, spec_error_term(), fe));
                    lemma_matches_in_prefix(q, spec_error_term(), k, fe);
                    assert(matches_at(q, spec_error_term(), fe));
                }
                assert(generic_error_step(p) is Miss);
            }
        },
        RuleStep::Incomplete => {
            assert(false);
        },
        RuleStep::Miss => {
            // No success terminator anywhere in the input, so none in the
            // cut either.
            let fp = find_sub(p, spec_ok_term());
            lemma_find_sub(p, spec_ok_term());
            lemma_find_sub(s, spec_ok_term());
            if fp >= 0 {
                assert(matches_at(p, spec_ok_term(), fp));
                lemma_matches_in_prefix(s, spec_ok_term(), k, fp);
            }
            assert(generic_success_step(p) is Miss);
            lemma_custom_error_prefix(s, k);
            match custom_error_step(s) {
                RuleStep::Match(v4, c4) => {
                    assert(c == c4);
                    assert(custom_error_step(p) is Incomplete);
                },
                RuleStep::Incomplete => {
                    assert(false);
                },
                RuleStep::Miss => {
                    assert(!(custom_error_step(p) is Match));
                    if custom_error_step(p) is Miss {
                        match generic_error_step(s) {
                            RuleStep::Match(v5, c5) => {
                                assert(c == c5);
                                lemma_find_sub_prefix_none(s, spec_error_term(), k);
                                assert(generic_error_step(p) is Miss);
                            },
                            _ => {
                                assert(false);
                            },
                        }
                    }
                },
            }
        },
    }
}


/// A prefix of the input stays a prefix when more bytes arrive.
pub proof fn lemma_prefix_extend(s: Seq<u8>, x: Seq<u8>, t: Seq<u8>)
    requires
        has_prefix(s, t),
    ensures
        has_prefix(s + x, t),
{
    assert((s + x).subrange(0, t.len() as int) =~= s.subrange(0, t.len() as int));
}

/// Extension behaviour of the stray-`OK` rule.
pub proof fn lemma_stray_extend(s: Seq<u8>, x: Seq<u8>)
    ensures
        stray_ok_step(s) is Match ==> stray_ok_step(s + x) == stray_ok_step(s),
        stray_ok_step(s) is Miss ==> stray_ok_step(s + x) is Miss,
{
    if has_prefix(s, spec_ok_line()) {
        lemma_prefix_extend(s, x, spec_ok_line());
    } else if !is_partial(s, spec_ok_line()) {
        lemma_nomatch_extend(s, x, spec_ok_line());
    }
}

/// Extension behaviour of one URC tag rule.
pub proof fn lemma_urc_tag_extend(s: Seq<u8>, x: Seq<u8>, tag: Seq<u8>)
    requires
        tag.len() >= 1,
    ensures
        urc_tag_step(s, tag) is Match ==> urc_tag_step(s + x, tag) == urc_tag_step(s, tag),
        urc_tag_step(s, tag) is Miss ==> urc_tag_step(s + x, tag) is Miss,
{
    match urc_tag_step(s, tag) {
        RuleStep::Match(v, c) => {
            lemma_prefix_extend(s, x, tag);
            let t = find_sub(s, spec_crlf());
            lemma_find_sub(s, spec_crlf());
            assert(matches_at(s, spec_crlf(), t));
            lemma_find_sub_extend(s, x, spec_crlf());
            assert((s + x).subrange(0, t) =~= s.subrange(0, t));
        },
        RuleStep::Miss => {
            lemma_nomatch_extend(s, x, tag);
        },
        RuleStep::Incomplete => {},
    }
}

/// Extension behaviour of a strip-style reply rule.
pub proof fn lemma_strip_extend(s: Seq<u8>, x: Seq<u8>, tag: Seq<u8>)
    requires
        tag.len() >= 1,
    ensures
        strip_step(s, tag) is Match ==> strip_step(s + x, tag) == strip_step(s, tag),
        strip_step(s, tag) is Miss ==> strip_step(s + x, tag) is Miss,
{
    match strip_step(s, tag) {
        RuleStep::Match(v, c) => {
            lemma_prefix_extend(s, x, tag);
            let t = find_sub(s, spec_crlf());
            lemma_find_sub(s, spec_crlf());
            assert(matches_at(s, spec_crlf(), t));
            lemma_find_sub_extend(s, x, spec_crlf());
            assert((s + x).subrange(tag.len() as int, t) =~= s.subrange(tag.len() as int, t));
        },
        RuleStep::Miss => {
            if has_prefix(s, tag) {
                lemma_prefix_extend(s, x, tag);
                lemma_find_sub_extend(s, x, spec_crlf());
            } else {
                lemma_nomatch_extend(s, x, tag);
            }
        },
        RuleStep::Incomplete => {},
    }
}

/// Extension behaviour of a whole-line reply rule.
pub proof fn lemma_whole_extend(s: Seq<u8>, x: Seq<u8>, tag: Seq<u8>)
    requires
        tag.len() >= 1,
    ensures
        whole_step(s, tag) is Match ==> whole_step(s + x, tag) == whole_step(s, tag),
        whole_step(s, tag) is Miss ==> whole_step(s + x, tag) is Miss,
{
    match whole_step(s, tag) {
        RuleStep::Match(v, c) => {
            lemma_prefix_extend(s, x, tag);
            let t = find_sub(s, spec_crlf());
            lemma_find_sub(s, spec_crlf());
            assert(matches_at(s, spec_crlf(), t));
            lemma_find_sub_extend(s, x, spec_crlf());
            assert((s + x).subrange(0, t) =~= s.subrange(0, t));
        },
        RuleStep::Miss => {
            lemma_nomatch_extend(s, x, tag);
        },
        RuleStep::Incomplete => {},
    }
}

/// Extension behaviour of a subkey reply rule.
pub proof fn lemma_subkey_extend(s: Seq<u8>, x: Seq<u8>, tag: Seq<u8>)
    requires
        tag.len() >= 1,
    ensures
        subkey_step(s, tag) is Match ==> subkey_step(s + x, tag) == subkey_step(s, tag),
        subkey_step(s, tag) is Miss ==> subkey_step(s + x, tag) is Miss,
{
    match subkey_step(s, tag) {
        RuleStep::Match(v, c) => {
            lemma_prefix_extend(s, x, tag);
            let t = find_sub(s, spec_crlf());
            lemma_find_sub(s, spec_crlf());
            assert(matches_at(s, spec_crlf(), t));
            lemma_find_sub_extend(s, x, spec_crlf());
            assert((s + x).subrange(tag.len() as int, t) =~= s.subrange(tag.len() as int, t));
            let line = s.subrange(tag.len() as int, t);
            let sp = find_sub(line, crate::tags::spec_space());
            lemma_find_sub(line, crate::tags::spec_space());
            assert(matches_at(line, crate::tags::spec_space(), sp));
            assert((s + x).subrange(tag.len() + sp + 1, t)
                =~= s.subrange(tag.len() + sp + 1, t));
        },
        RuleStep::Miss => {
            if has_prefix(s, tag) {
                lemma_prefix_extend(s, x, tag);
                lemma_find_sub_extend(s, x, spec_crlf());
            } else {
                lemma_nomatch_extend(s, x, tag);
            }
        },
        RuleStep::Incomplete => {},
    }
}

/// Extension behaviour of the reset preamble rule.
pub proof fn lemma_reset_extend(s: Seq<u8>, x: Seq<u8>)
    ensures
        reset_step(s) is Match ==> reset_step(s + x) == reset_step(s),
        reset_step(s) is Miss ==> reset_step(s + x) is Miss,
{
    let tag = crate::tags::spec_reset_tag();
    match reset_step(s) {
        RuleStep::Match(v, c) => {
            lemma_prefix_extend(s, x, tag);
            let t = find_sub(s, spec_reset_term());
            lemma_find_sub(s, spec_reset_term());
            assert(matches_at(s, spec_reset_term(), t));
            lemma_find_sub_extend(s, x, spec_reset_term());
            assert((s + x).subrange(tag.len() as int, t) =~= s.subrange(tag.len() as int, t));
        },
        RuleStep::Miss => {
            if has_prefix(s, tag) {
                lemma_prefix_extend(s, x, tag);
                lemma_find_sub_extend(s, x, spec_reset_term());
            } else {
                lemma_nomatch_extend(s, x, tag);
            }
        },
        RuleStep::Incomplete => {},
    }
}

/// Extension behaviour of the whole URC rule.
pub proof fn lemma_urc_extend(s: Seq<u8>, x: Seq<u8>)
    ensures
        urc_step(s) is Match ==> urc_step(s + x) == urc_step(s),
        urc_step(s) is Miss ==> urc_step(s + x) is Miss,
{
    lemma_urc_tag_extend(s, x, crate::tags::spec_join_tag());
    lemma_urc_tag_extend(s, x, crate::tags::spec_msghex_tag());
    lemma_urc_tag_extend(s, x, crate::tags::spec_cmsghex_tag());
    lemma_urc_tag_extend(s, x, crate::tags::spec_msg_tag());
}

/// Extension behaviour of the whole reply envelope rule.
pub proof fn lemma_custom_extend(s: Seq<u8>, x: Seq<u8>)
    ensures
        custom_success_step(s) is Match
            ==> custom_success_step(s + x) == custom_success_step(s),
        custom_success_step(s) is Miss ==> custom_success_step(s + x) is Miss,
{
    lemma_strip_extend(s, x, crate::tags::spec_at_tag());
    lemma_whole_extend(s, x, crate::tags::spec_ate_tag());
    lemma_reset_extend(s, x);
    lemma_strip_extend(s, x, crate::tags::spec_ver_tag());
    lemma_subkey_extend(s, x, crate::tags::spec_id_tag());
    lemma_strip_extend(s, x, crate::tags::spec_mode_tag());
    lemma_strip_extend(s, x, crate::tags::spec_dr_tag());
    lemma_strip_extend(s, x, crate::tags::spec_class_tag());
    lemma_strip_extend(s, x, crate::tags::spec_adr_tag());
    lemma_strip_extend(s, x, crate::tags::spec_lw_tag());
    lemma_subkey_extend(s, x, crate::tags::spec_key_tag());
    lemma_whole_extend(s, x, crate::tags::spec_join_std_tag());
    lemma_strip_extend(s, x, crate::tags::spec_recvb_tag());
    lemma_whole_extend(s, x, crate::tags::spec_up_cnt_tag());
    lemma_whole_extend(s, x, crate::tags::spec_down_cnt_tag());
}

/// Extension behaviour of the numbered-error code scan.
pub proof fn lemma_err_scan_extend(rest: Seq<u8>, x: Seq<u8>, i: nat)
    requires
        i <= spec_err_codes().len(),
    ensures
        err_scan(rest, i) is Match ==> err_scan(rest + x, i) == err_scan(rest, i),
        err_scan(rest, i) is Miss ==> err_scan(rest + x, i) is Miss,
    decreases spec_err_codes().len() - i,
{
    if i < spec_err_codes().len() {
        let n = spec_err_codes()[i as int];
        let pat = spec_err_token(n) + spec_crlf();
        if has_prefix(rest, pat) {
            lemma_prefix_extend(rest, x, pat);
        } else if is_partial(rest, pat) {
        } else {
            lemma_nomatch_extend(rest, x, pat);
            lemma_err_scan_extend(rest, x, i + 1);
        }
    }
}


/// A numbered-error scan can only classify a numbered error.
pub proof fn lemma_err_scan_shape(rest: Seq<u8>, i: nat)
    requires
        i <= spec_err_codes().len(),
    ensures
        err_scan(rest, i) matches RuleStep::Match(v, c)
            ==> v matches DigestView::Response(Err(crate::digester::InternalErrorView::Custom(
                _))),
    decreases spec_err_codes().len() - i,
{
    if i < spec_err_codes().len() {
        let n = spec_err_codes()[i as int];
        let pat = spec_err_token(n) + spec_crlf();
        if !has_prefix(rest, pat) && !is_partial(rest, pat) {
            lemma_err_scan_shape(rest, i + 1);
        }
    }
}

/// Extension behaviour of the numbered-error rule.
pub proof fn lemma_custom_error_extend(s: Seq<u8>, x: Seq<u8>)
    ensures
        custom_error_step(s) is Match ==> custom_error_step(s + x) == custom_error_step(s),
        custom_error_step(s) is Miss ==> custom_error_step(s + x) is Miss,
{
    let sep = spec_colon_sp();
    let q = find_sub(s, sep);
    if q >= 0 && !(custom_error_step(s) is Incomplete) {
        lemma_find_sub_extend(s, x, sep);
        lemma_find_sub(s, sep);
        assert(matches_at(s, sep, q));
        let rest = s.skip(q + 2);
        assert((s + x).skip(q + 2) =~= rest + x);
        lemma_err_scan_extend(rest, x, 0);
    }
}

/// Extension behaviour of the generic rules: a found terminator stays
/// the first one found.
pub proof fn lemma_generic_success_extend(s: Seq<u8>, x: Seq<u8>)
    ensures
        generic_success_step(s) is Match
            ==> generic_success_step(s + x) == generic_success_step(s),
{
    if generic_success_step(s) is Match {
        let f = find_sub(s, spec_ok_term());
        lemma_find_sub(s, spec_ok_term());
        assert(matches_at(s, spec_ok_term(), f));
        lemma_find_sub_extend(s, x, spec_ok_term());
        assert((s + x).subrange(0, f) =~= s.subrange(0, f));
    }
}

/// Extension behaviour of the generic error rule.
pub proof fn lemma_generic_error_extend(s: Seq<u8>, x: Seq<u8>)
    ensures
        generic_error_step(s) is Match
            ==> generic_error_step(s + x) == generic_error_step(s),
{
    if generic_error_step(s) is Match {
        lemma_find_sub_extend(s, x, spec_error_term());
    }
}

/// **Exact framing.**  A complete record keeps its classification and
/// its consumed count — the record's own length — whatever bytes follow
/// it: the digester never reads past the first record.
///
/// For a record classified as an error this needs the following bytes
/// not to complete a `\r\nOK\r\n` terminator anywhere: the generic
/// success rule runs first and would sweep the error record up as the
/// body of a response.
pub proof fn lemma_exact_framing(s: Seq<u8>, x: Seq<u8>)
    requires
        digest_spec(s).1 == s.len(),
        digest_spec(s).1 > 0,
        (digest_spec(s).0 matches DigestView::Response(e) && e is Err)
            ==> find_sub(s + x, spec_ok_term()) < 0,
    ensures
        digest_spec(s + x) == digest_spec(s),
{
    lemma_stray_extend(s, x);
    match stray_ok_step(s) {
        RuleStep::Match(v0, c0) => {},
        RuleStep::Incomplete => {
            assert(false);
        },
        RuleStep::Miss => {
            lemma_urc_extend(s, x);
            match urc_step(s) {
                RuleStep::Match(v1, c1) => {},
                RuleStep::Incomplete => {
                    assert(false);
                },
                RuleStep::Miss => {
                    lemma_custom_extend(s, x);
                    match custom_success_step(s) {
                        RuleStep::Match(v2, c2) => {},
                        RuleStep::Incomplete => {
                            assert(false);
                        },
                        RuleStep::Miss => {
                            match generic_success_step(s) {
                                RuleStep::Match(v3, c3) => {
                                    lemma_generic_success_extend(s, x);
                                },
                                RuleStep::Incomplete => {
                                    assert(false);
                                },
                                RuleStep::Miss => {
                                    // An error record: the side condition
                                    // keeps the generic success rule out.
                                    lemma_custom_error_extend(s, x);
                                    match custom_error_step(s) {
                                        RuleStep::Match(v4, c4) => {
                                            assert(digest_spec(s).0 == v4);
                                            let q = find_sub(s, spec_colon_sp());
                                            lemma_err_scan_shape(s.skip(q + 2), 0);
                                            assert(v4 matches DigestView::Response(e) && e
                                                is Err);
                                            assert(generic_success_step(s + x) is Miss);
                                        },
                                        RuleStep::Incomplete => {
                                            assert(false);
                                        },
                                        RuleStep::Miss => {
                                            lemma_generic_error_extend(s, x);
                                            match generic_error_step(s) {
                                                RuleStep::Match(v5, c5) => {
                                                    assert(digest_spec(s).0 == v5);
                                                    assert(generic_success_step(s + x)
                                                        is Miss);
                                                },
                                                _ => {
                                                    assert(false);
                                                },
                                            }
                                        },
                                    }
                                },
                            }
                        },
                    }
                },
            }
        },
    }
}

/// **Purity.**  The digester's outcome is a function of the bytes alone:
/// two runs on equal inputs return the same classification and the same
/// consumed count.
pub proof fn lemma_digest_pure(s1: Seq<u8>, s2: Seq<u8>)
    requires
        s1 == s2,
    ensures
        digest_spec(s1) == digest_spec(s2),
{
}

} // verus!
