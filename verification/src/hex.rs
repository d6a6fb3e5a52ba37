//! Hex and decimal wire encodings.
//!
//! Commands carry numeric parameters in decimal and identifiers, keys and
//! payloads in hexadecimal.  The modem's identifier fields use upper-case
//! hex grouped two digits at a time with a space between groups; payloads
//! use plain lower-case hex with all-zero trailing bytes trimmed off to
//! keep the line short.  Downlink payloads arrive as hex text in which an
//! odd final digit stands for the high nibble of the last byte.

use vstd::prelude::*;

verus! {

/// Upper-case hex digit for a nibble value.
pub open spec fn hex_digit_upper(n: u8) -> u8 {
    if n < 10 {
        (48 + n) as u8
    } else {
        (55 + n) as u8
    }
}

/// Lower-case hex digit for a nibble value.
pub open spec fn hex_digit_lower(n: u8) -> u8 {
    if n < 10 {
        (48 + n) as u8
    } else {
        (87 + n) as u8
    }
}

/// Two upper-case hex digits of one byte.
pub open spec fn hex_byte_upper(b: u8) -> Seq<u8> {
    seq![hex_digit_upper(b / 16), hex_digit_upper(b % 16)]
}

/// Two lower-case hex digits of one byte.
pub open spec fn hex_byte_lower(b: u8) -> Seq<u8> {
    seq![hex_digit_lower(b / 16), hex_digit_lower(b % 16)]
}

/// Upper-case hex of a byte sequence, one space between bytes.
pub open spec fn hex_upper_spaced(s: Seq<u8>) -> Seq<u8>
    decreases s.len(),
{
    if s.len() == 0 {
        Seq::<u8>::empty()
    } else if s.len() == 1 {
        hex_byte_upper(s[0])
    } else {
        hex_upper_spaced(s.drop_last()) + seq![32u8] + hex_byte_upper(s.last())
    }
}

/// Plain upper-case hex of a byte sequence.
pub open spec fn hex_upper_plain(s: Seq<u8>) -> Seq<u8>
    decreases s.len(),
{
    if s.len() == 0 {
        Seq::<u8>::empty()
    } else {
        hex_upper_plain(s.drop_last()) + hex_byte_upper(s.last())
    }
}

/// Plain lower-case hex of a byte sequence.
pub open spec fn hex_lower_plain(s: Seq<u8>) -> Seq<u8>
    decreases s.len(),
{
    if s.len() == 0 {
        Seq::<u8>::empty()
    } else {
        hex_lower_plain(s.drop_last()) + hex_byte_lower(s.last())
    }
}

/// The `n` big-endian base-256 digits of `v`.
pub open spec fn be_bytes(v: nat, n: nat) -> Seq<u8>
    decreases n,
{
    if n == 0 {
        Seq::<u8>::empty()
    } else {
        be_bytes(v / 256, (n - 1) as nat).push((v % 256) as u8)
    }
}

/// The `n` little-endian base-256 digits of `v`.
pub open spec fn le_bytes(v: nat, n: nat) -> Seq<u8>
    decreases n,
{
    if n == 0 {
        Seq::<u8>::empty()
    } else {
        seq![(v % 256) as u8] + le_bytes(v / 256, (n - 1) as nat)
    }
}

/// Drops all-zero trailing bytes, keeping at least one byte.
pub open spec fn trim_trailing_zeros(s: Seq<u8>) -> Seq<u8>
    decreases s.len(),
{
    if s.len() > 1 && s.last() == 0 {
        trim_trailing_zeros(s.drop_last())
    } else {
        s
    }
}

/// Decimal digits of `n`, most significant first, no sign, no padding.
pub open spec fn dec_rep(n: nat) -> Seq<u8>
    decreases n,
{
    if n < 10 {
        seq![(48 + n) as u8]
    } else {
        dec_rep(n / 10).push((48 + n % 10) as u8)
    }
}

/// Is `b` an ASCII decimal digit?
pub open spec fn is_dec_digit(b: u8) -> bool {
    48 <= b <= 57
}

/// Is every byte of `s` a decimal digit?
pub open spec fn all_dec_digits(s: Seq<u8>) -> bool {
    forall|i: int| 0 <= i < s.len() ==> is_dec_digit(s[i])
}

/// Value of a string of decimal digits, most significant first.
pub open spec fn dec_val(s: Seq<u8>) -> nat
    decreases s.len(),
{
    if s.len() == 0 {
        0
    } else {
        (dec_val(s.drop_last()) * 10 + (s.last() - 48)) as nat
    }
}

/// Is `b` an ASCII hex digit (either case)?
pub open spec fn is_hex_digit(b: u8) -> bool {
    (48 <= b <= 57) || (65 <= b <= 70) || (97 <= b <= 102)
}

/// Is every byte of `s` a hex digit?
pub open spec fn all_hex_digits(s: Seq<u8>) -> bool {
    forall|i: int| 0 <= i < s.len() ==> is_hex_digit(s[i])
}

/// Nibble value of a hex digit.
pub open spec fn nibble_val(b: u8) -> u8 {
    if 48 <= b <= 57 {
        (b - 48) as u8
    } else if 65 <= b <= 70 {
        (b - 55) as u8
    } else if 97 <= b <= 102 {
        (b - 87) as u8
    } else {
        0
    }
}

/// Bytes decoded from a string of hex digits.  An odd final digit is the
/// high nibble of the last byte.
pub open spec fn hex_decode_spec(s: Seq<u8>) -> Seq<u8> {
    Seq::new(((s.len() + 1) / 2) as nat, |j: int|
        if 2 * j + 1 < s.len() {
            (nibble_val(s[2 * j]) * 16 + nibble_val(s[2 * j + 1])) as u8
        } else {
            (nibble_val(s[2 * j]) * 16) as u8
        })
}

/// Appending digits cannot shrink a decimal value.
pub proof fn lemma_dec_val_prefix(s: Seq<u8>, k: int)
    requires
        0 <= k <= s.len(),
        all_dec_digits(s),
    ensures
        dec_val(s.subrange(0, k)) <= dec_val(s),
    decreases s.len() - k,
{
    if k == s.len() {
        assert(s.subrange(0, k) =~= s);
    } else {
        lemma_dec_val_prefix(s, k + 1);
        let t = s.subrange(0, k + 1);
        assert(t.drop_last() =~= s.subrange(0, k));
        assert(t.last() == s[k]);
        assert(is_dec_digit(s[k]));
        assert(dec_val(t) == dec_val(s.subrange(0, k)) * 10 + (t.last() - 48));
        assert(dec_val(s.subrange(0, k)) <= dec_val(t));
    }
}

/// A digit string of length `n` has value below `pow10(n)`.
pub open spec fn pow10(n: nat) -> nat
    decreases n,
{
    if n == 0 {
        1
    } else {
        10 * pow10((n - 1) as nat)
    }
}

/// Bound on the value of a digit string by its length.
pub proof fn lemma_dec_val_bound(s: Seq<u8>)
    requires
        all_dec_digits(s),
    ensures
        dec_val(s) < pow10(s.len()),
    decreases s.len(),
{
    if s.len() > 0 {
        assert(all_dec_digits(s.drop_last())) by {
            assert(forall|i: int| 0 <= i < s.len() - 1 ==> s.drop_last()[i] == s[i]);
        }
        lemma_dec_val_bound(s.drop_last());
        assert(s.last() - 48 <= 9);
    }
}


/// The decimal digits of `n` read back as `n`.
pub proof fn lemma_dec_rep_val(n: nat)
    ensures
        all_dec_digits(dec_rep(n)),
        dec_val(dec_rep(n)) == n,
        dec_rep(n).len() >= 1,
    decreases n,
{
    if n < 10 {
        let s = dec_rep(n);
        assert(s =~= seq![(48 + n) as u8]);
        assert(s.drop_last() =~= Seq::<u8>::empty());
        assert(dec_val(s.drop_last()) == 0);
        assert(s.last() == (48 + n) as u8);
        assert((48 + n) as u8 == 48 + n);
        assert(dec_val(s) == (0 * 10 + ((48 + n) as u8 - 48)) as nat);
        assert(dec_val(s) == n);
    } else {
        lemma_dec_rep_val(n / 10);
        let s = dec_rep(n);
        assert(s.drop_last() =~= dec_rep(n / 10));
        assert(s.last() == (48 + n % 10) as u8);
        assert(dec_val(s) == dec_val(dec_rep(n / 10)) * 10 + n % 10);
        assert(all_dec_digits(s)) by {
            assert(forall|i: int| 0 <= i < s.len() - 1 ==> s[i] == dec_rep(n / 10)[i]);
        }
    }
}


/// The number of decimal digits of `n` is bounded by any `k` with
/// `n < pow10(k)`.
pub proof fn lemma_dec_rep_len(n: nat, k: nat)
    requires
        k >= 1,
        n < pow10(k),
    ensures
        dec_rep(n).len() <= k,
    decreases n,
{
    if n >= 10 {
        assert(pow10(k) == 10 * pow10((k - 1) as nat));
        lemma_dec_rep_len(n / 10, (k - 1) as nat);
    }
}

/// Length of the spaced upper-case hex form.
pub proof fn lemma_hex_upper_spaced_len(s: Seq<u8>)
    ensures
        s.len() == 0 ==> hex_upper_spaced(s).len() == 0,
        s.len() >= 1 ==> hex_upper_spaced(s).len() == 3 * s.len() - 1,
    decreases s.len(),
{
    if s.len() > 1 {
        lemma_hex_upper_spaced_len(s.drop_last());
    }
}

/// Length of the plain hex forms.
pub proof fn lemma_hex_plain_len(s: Seq<u8>)
    ensures
        hex_lower_plain(s).len() == 2 * s.len(),
        hex_upper_plain(s).len() == 2 * s.len(),
    decreases s.len(),
{
    if s.len() > 0 {
        lemma_hex_plain_len(s.drop_last());
    }
}

/// Trimming never grows a sequence and leaves at least one byte of a
/// non-empty one.
pub proof fn lemma_trim_len(s: Seq<u8>)
    ensures
        trim_trailing_zeros(s).len() <= s.len(),
        s.len() >= 1 ==> trim_trailing_zeros(s).len() >= 1,
    decreases s.len(),
{
    if s.len() > 1 && s.last() == 0 {
        lemma_trim_len(s.drop_last());
    }
}

/// The base-256 digit strings have exactly the requested length.
pub proof fn lemma_base256_len(v: nat, n: nat)
    ensures
        be_bytes(v, n).len() == n,
        le_bytes(v, n).len() == n,
    decreases n,
{
    if n > 0 {
        lemma_base256_len(v / 256, (n - 1) as nat);
    }
}


/// Unfolds `pow10(10)`, which bounds every `u32`.
pub proof fn lemma_pow10_10()
    ensures
        pow10(3) == 1000,
        pow10(10) == 10000000000,
{
    assert(pow10(0) == 1);
    assert(pow10(1) == 10);
    assert(pow10(2) == 100);
    assert(pow10(3) == 1000);
    assert(pow10(4) == 10000);
    assert(pow10(5) == 100000);
    assert(pow10(6) == 1000000);
    assert(pow10(7) == 10000000);
    assert(pow10(8) == 100000000);
    assert(pow10(9) == 1000000000);
    assert(pow10(10) == 10000000000);
}


/// Number of hex digits in `s`.
pub open spec fn hex_digit_count(s: Seq<u8>) -> nat
    decreases s.len(),
{
    if s.len() == 0 {
        0
    } else if is_hex_digit(s.last()) {
        hex_digit_count(s.drop_last()) + 1
    } else {
        hex_digit_count(s.drop_last())
    }
}

/// Value of the hex digits of `s`, read left to right; any separator
/// bytes between them are skipped.
pub open spec fn loose_hex_val(s: Seq<u8>) -> nat
    decreases s.len(),
{
    if s.len() == 0 {
        0
    } else if is_hex_digit(s.last()) {
        loose_hex_val(s.drop_last()) * 16 + nibble_val(s.last()) as nat
    } else {
        loose_hex_val(s.drop_last())
    }
}

/// A string of `k` hex digits is worth less than `pow16(k)`.
pub open spec fn pow16(n: nat) -> nat
    decreases n,
{
    if n == 0 {
        1
    } else {
        16 * pow16((n - 1) as nat)
    }
}

/// Bound on a loose hex value by its digit count.
pub proof fn lemma_loose_hex_bound(s: Seq<u8>)
    ensures
        loose_hex_val(s) < pow16(hex_digit_count(s)),
    decreases s.len(),
{
    if s.len() > 0 {
        lemma_loose_hex_bound(s.drop_last());
        if is_hex_digit(s.last()) {
            assert(nibble_val(s.last()) <= 15);
        }
    }
}

/// `pow16(16)` is one past the largest `u64`.
pub proof fn lemma_pow16_16()
    ensures
        pow16(16) == 0x10000000000000000,
        pow16(8) == 0x100000000,
{
    assert(pow16(0) == 1);
    assert(pow16(1) == 0x10);
    assert(pow16(2) == 0x100);
    assert(pow16(3) == 0x1000);
    assert(pow16(4) == 0x10000);
    assert(pow16(5) == 0x100000);
    assert(pow16(6) == 0x1000000);
    assert(pow16(7) == 0x10000000);
    assert(pow16(8) == 0x100000000);
    assert(pow16(9) == 0x1000000000);
    assert(pow16(10) == 0x10000000000);
    assert(pow16(11) == 0x100000000000);
    assert(pow16(12) == 0x1000000000000);
    assert(pow16(13) == 0x10000000000000);
    assert(pow16(14) == 0x100000000000000);
    assert(pow16(15) == 0x1000000000000000);
    assert(pow16(16) == 0x10000000000000000);
}

/// `pow16` grows with its argument.
pub proof fn lemma_pow16_monotone(a: nat, b: nat)
    requires
        a <= b,
    ensures
        pow16(a) <= pow16(b),
    decreases b,
{
    if a < b {
        lemma_pow16_monotone(a, (b - 1) as nat);
    }
}

/// Reads hex digits left to right, skipping separators, into a value of
/// at most `max_digits` hex digits (at most sixteen).  More digits than
/// that fail.
pub fn parse_hex_loose(s: &[u8], max_digits: usize) -> (r: Option<u64>)
    requires
        max_digits <= 16,
    ensures
        match r {
            Some(v) => hex_digit_count(s@) <= max_digits && v as nat == loose_hex_val(s@)
                && (v as nat) < pow16(max_digits as nat),
            None => hex_digit_count(s@) > max_digits,
        },
{
    proof {
        lemma_pow16_monotone(0, max_digits as nat);
    }
    let mut acc: u64 = 0;
    let mut digits: usize = 0;
    let mut i: usize = 0;
    while i < s.len()
        invariant
            i <= s@.len(),
            max_digits <= 16,
            digits == hex_digit_count(s@.subrange(0, i as int)),
            digits <= max_digits,
            acc as nat == loose_hex_val(s@.subrange(0, i as int)),
            (acc as nat) < pow16(digits as nat),
        decreases s.len() - i,
    {
        let b = s[i];
        proof {
            let t = s@.subrange(0, i + 1);
            assert(t.drop_last() =~= s@.subrange(0, i as int));
            assert(t.last() == s@[i as int]);
        }
        match hex_nibble(b) {
            Some(nv) => {
                if digits >= max_digits {
                    proof {
                        lemma_hex_count_prefix(s@, i + 1);
                    }
                    return None;
                }
                proof {
                    lemma_pow16_monotone(digits as nat + 1, 16);
                    lemma_pow16_16();
                    assert(acc as nat * 16 + nv < pow16(digits as nat + 1));
                }
                acc = acc * 16 + nv as u64;
                digits = digits + 1;
            },
            None => {
            },
        }
        i = i + 1;
    }
    proof {
        assert(s@.subrange(0, s@.len() as int) =~= s@);
        lemma_pow16_monotone(digits as nat, max_digits as nat);
    }
    Some(acc)
}

/// The hex digit count of a prefix never exceeds the whole's.
pub proof fn lemma_hex_count_prefix(s: Seq<u8>, k: int)
    requires
        0 <= k <= s.len(),
    ensures
        hex_digit_count(s.subrange(0, k)) <= hex_digit_count(s),
    decreases s.len() - k,
{
    if k == s.len() {
        assert(s.subrange(0, k) =~= s);
    } else {
        lemma_hex_count_prefix(s, k + 1);
        let t = s.subrange(0, k + 1);
        assert(t.drop_last() =~= s.subrange(0, k));
    }
}


/// Upper-case hex digits of `n`, most significant first, no padding.
pub open spec fn hex_rep_upper(n: nat) -> Seq<u8>
    decreases n,
{
    if n < 16 {
        seq![hex_digit_upper(n as u8)]
    } else {
        hex_rep_upper(n / 16).push(hex_digit_upper((n % 16) as u8))
    }
}

/// The number of hex digits of `n` is bounded by any `k` with
/// `n < pow16(k)`.
pub proof fn lemma_hex_rep_len(n: nat, k: nat)
    requires
        k >= 1,
        n < pow16(k),
    ensures
        hex_rep_upper(n).len() <= k,
    decreases n,
{
    if n >= 16 {
        assert(pow16(k) == 16 * pow16((k - 1) as nat));
        lemma_hex_rep_len(n / 16, (k - 1) as nat);
    }
}

/// The unpadded upper-case hex digits of `v`.
pub fn hex_u32_caps(v: u32) -> (r: Vec<u8>)
    ensures
        r@ == hex_rep_upper(v as nat),
    decreases v,
{
    if v < 16 {
        let d: u8 = if v < 10 {
            48 + (v as u8)
        } else {
            55 + (v as u8)
        };
        let r: Vec<u8> = vec![d];
        proof {
            assert(r@ =~= hex_rep_upper(v as nat));
        }
        r
    } else {
        let mut r = hex_u32_caps(v / 16);
        let m = (v % 16) as u8;
        r.push(if m < 10 { 48 + m } else { 55 + m });
        r
    }
}

/// The payload bytes as they go on the wire: all-zero trailing bytes
/// dropped, and an empty payload standing as one zero byte.
pub open spec fn trimmed_payload(p: Seq<u8>) -> Seq<u8> {
    if p.len() == 0 {
        seq![0u8]
    } else {
        trim_trailing_zeros(p)
    }
}

/// Encodes a payload as trimmed hex, lower- or upper-case.
pub fn payload_hex(p: &[u8], upper: bool) -> (r: Vec<u8>)
    ensures
        upper ==> r@ == hex_upper_plain(trimmed_payload(p@)),
        !upper ==> r@ == hex_lower_plain(trimmed_payload(p@)),
        r@.len() <= 2 * p@.len() + 2,
{
    proof {
        lemma_trim_len(p@);
    }
    if p.len() == 0 {
        let z: Vec<u8> = vec![0u8];
        proof {
            assert(z@ =~= trimmed_payload(p@));
            lemma_hex_plain_len(z@);
        }
        hex_encode_plain(z.as_slice(), upper)
    } else {
        let t = trim_zeros(p);
        proof {
            lemma_hex_plain_len(t@);
        }
        hex_encode_plain(t.as_slice(), upper)
    }
}

/// Copies a byte slice into a fresh vector.
pub fn copy_bytes(s: &[u8]) -> (r: Vec<u8>)
    ensures
        r@ == s@,
{
    vstd::slice::slice_to_vec(s)
}

/// Encodes `bytes` as upper-case hex with a space between bytes.
pub fn hex_encode_upper_spaced(bytes: &[u8]) -> (r: Vec<u8>)
    ensures
        r@ == hex_upper_spaced(bytes@),
{
    let mut r: Vec<u8> = Vec::new();
    let mut i: usize = 0;
    while i < bytes.len()
        invariant
            i <= bytes@.len(),
            r@ == hex_upper_spaced(bytes@.subrange(0, i as int)),
        decreases bytes.len() - i,
    {
        let b = bytes[i];
        if i > 0 {
            r.push(32u8);
        }
        r.push(if b / 16 < 10 { 48 + b / 16 } else { 55 + b / 16 });
        r.push(if b % 16 < 10 { 48 + b % 16 } else { 55 + b % 16 });
        i = i + 1;
        proof {
            let t = bytes@.subrange(0, i as int);
            assert(t.drop_last() =~= bytes@.subrange(0, i - 1));
            assert(t.last() == bytes@[i - 1]);
            if i == 1 {
                assert(r@ =~= hex_byte_upper(bytes@[0]));
            } else {
                assert(r@ =~= hex_upper_spaced(t.drop_last()) + seq![32u8]
                    + hex_byte_upper(t.last()));
            }
        }
    }
    proof {
        assert(bytes@.subrange(0, bytes@.len() as int) =~= bytes@);
    }
    r
}

/// Encodes `bytes` as plain hex, upper-case or lower-case.
pub fn hex_encode_plain(bytes: &[u8], upper: bool) -> (r: Vec<u8>)
    ensures
        upper ==> r@ == hex_upper_plain(bytes@),
        !upper ==> r@ == hex_lower_plain(bytes@),
{
    let mut r: Vec<u8> = Vec::new();
    let mut i: usize = 0;
    while i < bytes.len()
        invariant
            i <= bytes@.len(),
            upper ==> r@ == hex_upper_plain(bytes@.subrange(0, i as int)),
            !upper ==> r@ == hex_lower_plain(bytes@.subrange(0, i as int)),
        decreases bytes.len() - i,
    {
        let b = bytes[i];
        let base_hi: u8 = if upper { 55 } else { 87 };
        r.push(if b / 16 < 10 { 48 + b / 16 } else { base_hi + b / 16 });
        r.push(if b % 16 < 10 { 48 + b % 16 } else { base_hi + b % 16 });
        i = i + 1;
        proof {
            let t = bytes@.subrange(0, i as int);
            assert(t.drop_last() =~= bytes@.subrange(0, i - 1));
            assert(t.last() == bytes@[i - 1]);
            if upper {
                assert(r@ =~= hex_upper_plain(t.drop_last()) + hex_byte_upper(t.last()));
            } else {
                assert(r@ =~= hex_lower_plain(t.drop_last()) + hex_byte_lower(t.last()));
            }
        }
    }
    proof {
        assert(bytes@.subrange(0, bytes@.len() as int) =~= bytes@);
    }
    r
}

/// The eight big-endian bytes of a 64-bit value.
pub fn u64_be_bytes(v: u64) -> (r: Vec<u8>)
    ensures
        r@ == be_bytes(v as nat, 8),
{
    u64_be_rec(v, 8)
}

fn u64_be_rec(v: u64, n: usize) -> (r: Vec<u8>)
    ensures
        r@ == be_bytes(v as nat, n as nat),
    decreases n,
{
    if n == 0 {
        Vec::new()
    } else {
        let mut r = u64_be_rec(v / 256, n - 1);
        r.push((v % 256) as u8);
        r
    }
}

/// The sixteen little-endian bytes of a 128-bit value.
pub fn u128_le_bytes(v: u128) -> (r: Vec<u8>)
    ensures
        r@ == le_bytes(v as nat, 16),
{
    u128_le_rec(v, 16)
}

fn u128_le_rec(v: u128, n: usize) -> (r: Vec<u8>)
    ensures
        r@ == le_bytes(v as nat, n as nat),
    decreases n,
{
    if n == 0 {
        Vec::new()
    } else {
        let mut r: Vec<u8> = Vec::new();
        r.push((v % 256) as u8);
        let mut rest = u128_le_rec(v / 256, n - 1);
        r.append(&mut rest);
        r
    }
}

/// Drops all-zero trailing bytes, keeping at least one byte.
pub fn trim_zeros(s: &[u8]) -> (r: Vec<u8>)
    ensures
        r@ == trim_trailing_zeros(s@),
    decreases s@.len(),
{
    if s.len() > 1 && s[s.len() - 1] == 0 {
        let head = vstd::slice::slice_subrange(s, 0, s.len() - 1);
        proof {
            assert(head@ =~= s@.drop_last());
        }
        trim_zeros(head)
    } else {
        copy_bytes(s)
    }
}

/// Appends the decimal digits of `v`.
pub fn push_dec_u32(out: &mut Vec<u8>, v: u32)
    ensures
        final(out)@ == old(out)@ + dec_rep(v as nat),
{
    let mut digits = dec_u32(v);
    out.append(&mut digits);
}

/// The decimal digits of `v`.
pub fn dec_u32(v: u32) -> (r: Vec<u8>)
    ensures
        r@ == dec_rep(v as nat),
    decreases v,
{
    if v < 10 {
        let mut r: Vec<u8> = Vec::new();
        r.push(48 + (v as u8));
        proof {
            assert(r@ =~= dec_rep(v as nat));
        }
        r
    } else {
        let mut r = dec_u32(v / 10);
        r.push(48 + ((v % 10) as u8));
        r
    }
}

/// Parses an unsigned decimal number.  Succeeds exactly on non-empty
/// all-digit input whose value fits in a `u32`.
pub fn parse_dec_u32(s: &[u8]) -> (r: Option<u32>)
    ensures
        match r {
            Some(v) => s@.len() >= 1 && all_dec_digits(s@) && v as nat == dec_val(s@),
            None => s@.len() == 0 || !all_dec_digits(s@) || dec_val(s@) > u32::MAX,
        },
{
    if s.len() == 0 {
        return None;
    }
    let mut acc: u32 = 0;
    let mut i: usize = 0;
    while i < s.len()
        invariant
            i <= s@.len(),
            acc as nat == dec_val(s@.subrange(0, i as int)),
            all_dec_digits(s@.subrange(0, i as int)),
        decreases s.len() - i,
    {
        let b = s[i];
        if b < 48 || b > 57 {
            proof {
                assert(!is_dec_digit(s@[i as int]));
            }
            return None;
        }
        let d = b - 48;
        if acc > (u32::MAX - d as u32) / 10 {
            proof {
                let t = s@.subrange(0, i + 1);
                assert(t.drop_last() =~= s@.subrange(0, i as int));
                assert(t.last() == s@[i as int]);
                assert(dec_val(t) == acc as nat * 10 + d);
                assert(dec_val(t) > u32::MAX);
                if all_dec_digits(s@) {
                    lemma_dec_val_prefix(s@, i + 1);
                }
            }
            return None;
        }
        proof {
            let t = s@.subrange(0, i + 1);
            assert(t.drop_last() =~= s@.subrange(0, i as int));
            assert(t.last() == s@[i as int]);
            assert(forall|j: int| 0 <= j < t.len() ==> t[j] == s@[j]);
        }
        acc = acc * 10 + d as u32;
        i = i + 1;
    }
    proof {
        assert(s@.subrange(0, s@.len() as int) =~= s@);
    }
    Some(acc)
}

/// Parses an unsigned decimal number into a `u8`.
pub fn parse_dec_u8(s: &[u8]) -> (r: Option<u8>)
    ensures
        match r {
            Some(v) => s@.len() >= 1 && all_dec_digits(s@) && v as nat == dec_val(s@),
            None => s@.len() == 0 || !all_dec_digits(s@) || dec_val(s@) > u8::MAX,
        },
{
    match parse_dec_u32(s) {
        Some(v) => if v <= 255 {
            Some(v as u8)
        } else {
            None
        },
        None => None,
    }
}

/// Signed decimal value of `s`: an optional leading minus sign, then digits.
pub open spec fn signed_dec_val(s: Seq<u8>) -> int {
    if s.len() > 0 && s[0] == 45 {
        -(dec_val(s.skip(1)) as int)
    } else {
        dec_val(s) as int
    }
}

/// Is `s` a well-formed signed decimal string?
pub open spec fn is_signed_dec(s: Seq<u8>) -> bool {
    if s.len() > 0 && s[0] == 45 {
        s.skip(1).len() >= 1 && all_dec_digits(s.skip(1))
    } else {
        s.len() >= 1 && all_dec_digits(s)
    }
}

/// Parses a signed decimal number.  Succeeds exactly on well-formed input
/// whose magnitude is at most `i32::MAX`.
pub fn parse_dec_i32(s: &[u8]) -> (r: Option<i32>)
    ensures
        match r {
            Some(v) => is_signed_dec(s@) && v as int == signed_dec_val(s@),
            None => !is_signed_dec(s@)
                || signed_dec_val(s@) > i32::MAX
                || signed_dec_val(s@) < -(i32::MAX as int),
        },
{
    if s.len() > 0 && s[0] == 45 {
        let rest = vstd::slice::slice_subrange(s, 1, s.len());
        proof {
            assert(rest@ =~= s@.skip(1));
        }
        match parse_dec_u32(rest) {
            Some(v) => if v <= i32::MAX as u32 {
                Some(-(v as i32))
            } else {
                None
            },
            None => None,
        }
    } else {
        match parse_dec_u32(s) {
            Some(v) => if v <= i32::MAX as u32 {
                Some(v as i32)
            } else {
                None
            },
            None => None,
        }
    }
}

/// Decodes a string of hex digits into bytes.  Succeeds exactly on
/// non-empty all-hex input; an odd final digit is the high nibble of the
/// last byte.
pub fn hex_decode_bytes(s: &[u8]) -> (r: Option<Vec<u8>>)
    ensures
        match r {
            Some(v) => s@.len() >= 1 && all_hex_digits(s@) && v@ == hex_decode_spec(s@),
            None => s@.len() == 0 || !all_hex_digits(s@),
        },
{
    if s.len() == 0 {
        return None;
    }
    let mut out: Vec<u8> = Vec::new();
    let mut i: usize = 0;
    while i + 1 < s.len()
        invariant
            i <= s@.len(),
            i % 2 == 0,
            s@.len() <= usize::MAX,
            out@.len() == i / 2,
            forall|k: int| 0 <= k < i ==> is_hex_digit(s@[k]),
            forall|j: int| 0 <= j < out@.len() ==> out@[j] == hex_decode_spec(s@)[j],
        decreases s.len() - i,
    {
        let hi = match hex_nibble(s[i]) {
            Some(n) => n,
            None => {
                return None;
            },
        };
        let lo = match hex_nibble(s[i + 1]) {
            Some(n) => n,
            None => {
                return None;
            },
        };
        out.push(hi * 16 + lo);
        i = i + 2;
    }
    if i < s.len() {
        let hi = match hex_nibble(s[i]) {
            Some(n) => n,
            None => {
                return None;
            },
        };
        out.push(hi * 16);
        proof {
            assert(2 * (out@.len() - 1) == i as int);
        }
    }
    proof {
        assert(out@.len() == hex_decode_spec(s@).len());
        assert(out@ =~= hex_decode_spec(s@));
    }
    Some(out)
}


/// Hundredths encoded by one or two fraction digits.
pub open spec fn frac_centi(f: Seq<u8>) -> int {
    if f.len() == 1 {
        (f[0] - 48) * 10
    } else {
        (f[0] - 48) * 10 + (f[1] - 48)
    }
}

/// Magnitude of an unsigned decimal with an optional one- or two-digit
/// fraction, in hundredths.  At most seven integer digits are accepted.
pub open spec fn snr_mag(t: Seq<u8>) -> Option<int> {
    let d = crate::scan::find_sub(t, seq![46u8]);
    if d < 0 {
        if 1 <= t.len() <= 7 && all_dec_digits(t) {
            Some(dec_val(t) * 100 as int)
        } else {
            None
        }
    } else {
        let ip = t.subrange(0, d);
        let fp = t.skip(d + 1);
        if 1 <= ip.len() <= 7 && all_dec_digits(ip) && 1 <= fp.len() <= 2
            && all_dec_digits(fp) {
            Some(dec_val(ip) * 100 as int + frac_centi(fp))
        } else {
            None
        }
    }
}

/// Signed decimal with optional fraction, in hundredths: the shape of the
/// modem's signal-to-noise figures.
pub open spec fn snr_centi_spec(s: Seq<u8>) -> Option<int> {
    if s.len() > 0 && s[0] == 45 {
        match snr_mag(s.skip(1)) {
            Some(m) => Some(-m),
            None => None,
        }
    } else {
        snr_mag(s)
    }
}

/// Parses a signed decimal with an optional fraction into hundredths.
pub fn parse_snr_centi(s: &[u8]) -> (r: Option<i32>)
    ensures
        match r {
            Some(v) => snr_centi_spec(s@) == Some(v as int),
            None => snr_centi_spec(s@) is None,
        },
{
    if s.len() > 0 && s[0] == 45 {
        let rest = vstd::slice::slice_subrange(s, 1, s.len());
        proof {
            assert(rest@ =~= s@.skip(1));
        }
        match parse_snr_mag(rest) {
            Some(m) => Some(-m),
            None => None,
        }
    } else {
        parse_snr_mag(s)
    }
}

/// Unfolds small powers of ten.
proof fn lemma_pow10_7()
    ensures
        pow10(7) == 10000000,
{
    assert(pow10(0) == 1);
    assert(pow10(1) == 10);
    assert(pow10(2) == 100);
    assert(pow10(3) == 1000);
    assert(pow10(4) == 10000);
    assert(pow10(5) == 100000);
    assert(pow10(6) == 1000000);
    assert(pow10(7) == 10000000);
}

fn parse_snr_mag(t: &[u8]) -> (r: Option<i32>)
    ensures
        match r {
            Some(v) => snr_mag(t@) == Some(v as int) && 0 <= v,
            None => snr_mag(t@) is None,
        },
{
    let dot: Vec<u8> = vec![46u8];
    proof {
        assert(dot@ =~= seq![46u8]);
    }
    match crate::scan::find(t, dot.as_slice()) {
        None => {
            if t.len() < 1 || t.len() > 7 {
                return None;
            }
            match parse_dec_u32(t) {
                Some(v) => {
                    proof {
                        lemma_dec_val_bound(t@);
                        lemma_pow10_7();
                        assert(pow10(t@.len()) <= pow10(7)) by {
                            lemma_pow10_monotone(t@.len(), 7);
                        }
                    }
                    Some((v * 100) as i32)
                },
                None => {
                    proof {
                        if all_dec_digits(t@) {
                            lemma_dec_val_bound(t@);
                            lemma_pow10_7();
                            lemma_pow10_monotone(t@.len(), 7);
                        }
                    }
                    None
                },
            }
        },
        Some(d) => {
            let n = t.len();
            proof {
                crate::scan::lemma_find_sub(t@, dot@);
                assert(crate::scan::matches_at(t@, dot@, d as int));
                assert(d + 1 <= n);
            }
            let ip = vstd::slice::slice_subrange(t, 0, d);
            let fp = vstd::slice::slice_subrange(t, d + 1, n);
            proof {
                assert(ip@ =~= t@.subrange(0, d as int));
                assert(fp@ =~= t@.skip(d + 1));
            }
            if ip.len() < 1 || ip.len() > 7 {
                return None;
            }
            if fp.len() < 1 || fp.len() > 2 {
                return None;
            }
            let ipv = match parse_dec_u32(ip) {
                Some(v) => v,
                None => {
                    proof {
                        if all_dec_digits(ip@) {
                            lemma_dec_val_bound(ip@);
                            lemma_pow10_7();
                            lemma_pow10_monotone(ip@.len(), 7);
                        }
                    }
                    return None;
                },
            };
            let f0 = fp[0];
            if f0 < 48 || f0 > 57 {
                return None;
            }
            let mut frac: u32 = (f0 - 48) as u32 * 10;
            if fp.len() == 2 {
                let f1 = fp[1];
                if f1 < 48 || f1 > 57 {
                    return None;
                }
                frac = frac + (f1 - 48) as u32;
            }
            proof {
                assert(all_dec_digits(fp@));
                lemma_dec_val_bound(ip@);
                lemma_pow10_7();
                lemma_pow10_monotone(ip@.len(), 7);
                assert(frac as int == frac_centi(fp@));
            }
            Some((ipv * 100 + frac) as i32)
        },
    }
}

/// `pow10` grows with its argument.
proof fn lemma_pow10_monotone(a: nat, b: nat)
    requires
        a <= b,
    ensures
        pow10(a) <= pow10(b),
    decreases b,
{
    if a < b {
        lemma_pow10_monotone(a, (b - 1) as nat);
        assert(pow10(b) == 10 * pow10((b - 1) as nat));
    }
}

/// Nibble value of one hex digit, if it is one.
pub fn hex_nibble(b: u8) -> (r: Option<u8>)
    ensures
        match r {
            Some(n) => is_hex_digit(b) && n == nibble_val(b),
            None => !is_hex_digit(b),
        },
{
    if 48 <= b && b <= 57 {
        Some(b - 48)
    } else if 65 <= b && b <= 70 {
        Some(b - 55)
    } else if 97 <= b && b <= 102 {
        Some(b - 87)
    } else {
        None
    }
}

} // verus!
