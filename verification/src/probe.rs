//! Parsing of the duration probe's output.
//!
//! Importing a media file runs an external probe tool once; the tool
//! prints the file's duration as a decimal number of seconds (typically
//! with a trailing newline). This module turns those output bytes into a
//! duration in milliseconds: leading and trailing whitespace is ignored,
//! an optional sign is honoured, the fractional part is read to
//! millisecond precision (further digits are ignored), a negative result
//! clamps to zero and an oversized one to `u32::MAX`. Output that is not a
//! plain decimal number is rejected; the caller then substitutes
//! [`FALLBACK_DURATION_MS`] and surfaces a status message.

use vstd::prelude::*;

verus! {

/// Duration assumed when the probe fails or its output cannot be parsed.
pub const FALLBACK_DURATION_MS: u32 = 10000;

/// Integer-part accumulator cap: the smallest value whose milliseconds
/// already exceed `u32::MAX`, so capping there never changes the clamped
/// result.
const VAL_CAP: u64 = 4294968;

/// ASCII whitespace as the probe may emit it around the number.
pub open spec fn is_ws(b: u8) -> bool {
    b == 32 || (9 <= b <= 13)
}

/// ASCII decimal digit.
pub open spec fn is_digit(b: u8) -> bool {
    48 <= b <= 57
}

/// `s` with leading whitespace removed.
pub open spec fn trim_front(s: Seq<u8>) -> Seq<u8>
    decreases s.len(),
{
    if s.len() > 0 && is_ws(s[0]) {
        trim_front(s.skip(1))
    } else {
        s
    }
}

/// `s` with trailing whitespace removed.
pub open spec fn trim_back(s: Seq<u8>) -> Seq<u8>
    decreases s.len(),
{
    if s.len() > 0 && is_ws(s.last()) {
        trim_back(s.drop_last())
    } else {
        s
    }
}

/// `s` with whitespace removed at both ends.
pub open spec fn trimmed(s: Seq<u8>) -> Seq<u8> {
    trim_back(trim_front(s))
}

/// Every byte of `s` is a decimal digit.
pub open spec fn all_digits(s: Seq<u8>) -> bool {
    forall|i: int| 0 <= i < s.len() ==> is_digit(s[i])
}

/// Splits an unsigned decimal numeral at its point: `Some((i, f))` when
/// `u` has the shape `digits` or `digits '.' digits` (either digit run
/// possibly empty), `None` for any other byte.
pub open spec fn split_digits(u: Seq<u8>) -> Option<(Seq<u8>, Seq<u8>)>
    decreases u.len(),
{
    if u.len() == 0 {
        Some((Seq::empty(), Seq::empty()))
    } else if is_digit(u[0]) {
        match split_digits(u.skip(1)) {
            Some(p) => Some((seq![u[0]] + p.0, p.1)),
            None => None,
        }
    } else if u[0] == 46 {
        if all_digits(u.skip(1)) {
            Some((Seq::empty(), u.skip(1)))
        } else {
            None
        }
    } else {
        None
    }
}

/// Value of a run of decimal digits, most significant first.
pub open spec fn digits_val(s: Seq<u8>) -> int
    decreases s.len(),
{
    if s.len() == 0 {
        0
    } else {
        digits_val(s.drop_last()) * 10 + (s.last() - 48)
    }
}

/// Digit `i` of the fractional part, zero beyond its end.
pub open spec fn frac_digit(f: Seq<u8>, i: int) -> int {
    if i < f.len() {
        f[i] - 48
    } else {
        0
    }
}

/// Milliseconds contributed by the fractional part: its first three
/// digits, zero-padded; further digits are below a millisecond.
pub open spec fn frac_ms(f: Seq<u8>) -> int {
    100 * frac_digit(f, 0) + 10 * frac_digit(f, 1) + frac_digit(f, 2)
}

/// The whole parse. `None` when the trimmed bytes are not an optionally
/// signed decimal numeral with at least one digit; otherwise the duration
/// in milliseconds, clamped to zero when negative and to `u32::MAX` when
/// too large.
pub open spec fn duration_ms_spec(out: Seq<u8>) -> Option<u32> {
    let t = trimmed(out);
    let neg = t.len() > 0 && t[0] == 45;
    let u = if t.len() > 0 && (t[0] == 43 || t[0] == 45) {
        t.skip(1)
    } else {
        t
    };
    match split_digits(u) {
        Some(p) => if p.0.len() + p.1.len() == 0 {
            None
        } else {
            let v = digits_val(p.0) * 1000 + frac_ms(p.1);
            if neg {
                Some(0u32)
            } else if v > u32::MAX {
                Some(u32::MAX)
            } else {
                Some(v as u32)
            }
        },
        None => None,
    }
}

/// A digit run's value is never negative.
proof fn lemma_digits_val_nonneg(s: Seq<u8>)
    requires
        all_digits(s),
    ensures
        digits_val(s) >= 0,
    decreases s.len(),
{
    if s.len() > 0 {
        assert(all_digits(s.drop_last())) by {
            assert(forall|i: int|
                0 <= i < s.len() - 1 ==> s.drop_last()[i] == s[i]);
        }
        lemma_digits_val_nonneg(s.drop_last());
    }
}

/// Splitting a numeral whose first `k` bytes are digits: those digits all
/// land in the integer part, and the rest splits on its own.
proof fn lemma_split_prefix(u: Seq<u8>, k: int)
    requires
        0 <= k <= u.len(),
        forall|i: int| 0 <= i < k ==> is_digit(u[i]),
    ensures
        split_digits(u) == (match split_digits(u.skip(k)) {
            Some(p) => Some((u.take(k) + p.0, p.1)),
            None => None::<(Seq<u8>, Seq<u8>)>,
        }),
    decreases k,
{
    if k == 0 {
        assert(u.skip(0) =~= u);
        match split_digits(u) {
            Some(p) => {
                assert(u.take(0) + p.0 =~= p.0);
            },
            None => {},
        }
    } else {
        lemma_split_prefix(u.skip(1), k - 1);
        assert(u.skip(1).skip(k - 1) =~= u.skip(k));
        match split_digits(u.skip(k)) {
            Some(p) => {
                assert(seq![u[0]] + (u.skip(1).take(k - 1) + p.0) =~= u.take(k) + p.0);
            },
            None => {},
        }
    }
}

/// Dropping `k` leading whitespace bytes is exactly the front trim.
proof fn lemma_trim_front(s: Seq<u8>, k: int)
    requires
        0 <= k <= s.len(),
        forall|i: int| 0 <= i < k ==> is_ws(s[i]),
        k == s.len() || !is_ws(s[k]),
    ensures
        trim_front(s) == s.skip(k),
    decreases k,
{
    if k == 0 {
        assert(s.skip(0) =~= s);
    } else {
        lemma_trim_front(s.skip(1), k - 1);
        assert(s.skip(1).skip(k - 1) =~= s.skip(k));
    }
}

/// Keeping the first `m` bytes, all after them whitespace, is exactly the
/// back trim.
proof fn lemma_trim_back(s: Seq<u8>, m: int)
    requires
        0 <= m <= s.len(),
        forall|i: int| m <= i < s.len() ==> is_ws(s[i]),
        m == 0 || !is_ws(s[m - 1]),
    ensures
        trim_back(s) == s.take(m),
    decreases s.len(),
{
    if m == s.len() {
        assert(s.take(m) =~= s);
    } else {
        assert(is_ws(s.last()));
        assert(forall|i: int|
            m <= i < s.len() - 1 ==> s.drop_last()[i] == s[i]);
        lemma_trim_back(s.drop_last(), m);
        assert(s.drop_last().take(m) =~= s.take(m));
    }
}

/// Tests one byte for ASCII whitespace.
fn is_ws_byte(b: u8) -> (r: bool)
    ensures
        r == is_ws(b),
{
    b == 32 || (b >= 9 && b <= 13)
}

/// Tests one byte for an ASCII digit.
fn is_digit_byte(b: u8) -> (r: bool)
    ensures
        r == is_digit(b),
{
    b >= 48 && b <= 57
}

/// Positions of the first and one-past-the-last non-whitespace byte, so
/// that the bytes between them are exactly the trimmed output.
fn trim_bounds(out: &[u8]) -> (r: (usize, usize))
    ensures
        r.0 <= r.1 <= out@.len(),
        trimmed(out@) == out@.subrange(r.0 as int, r.1 as int),
{
    let ghost s = out@;
    let n = out.len();
    let mut lo: usize = 0;
    while lo < n
        invariant
            lo <= n,
            n == s.len(),
            s == out@,
            forall|i: int| 0 <= i < lo ==> is_ws(s[i]),
        ensures
            lo <= n,
            forall|i: int| 0 <= i < lo ==> is_ws(s[i]),
            lo == n || !is_ws(s[lo as int]),
        decreases n - lo,
    {
        if !is_ws_byte(out[lo]) {
            break;
        }
        lo = lo + 1;
    }
    let mut hi: usize = n;
    while hi > lo
        invariant
            lo <= hi <= n,
            n == s.len(),
            s == out@,
            forall|i: int| hi <= i < n ==> is_ws(s[i]),
        ensures
            lo <= hi <= n,
            forall|i: int| hi <= i < n ==> is_ws(s[i]),
            hi == lo || !is_ws(s[hi - 1]),
        decreases hi,
    {
        if !is_ws_byte(out[hi - 1]) {
            break;
        }
        hi = hi - 1;
    }
    proof {
        lemma_trim_front(s, lo as int);
        assert(forall|i: int|
            hi - lo <= i < s.skip(lo as int).len() ==> s.skip(lo as int)[i] == s[lo + i]);
        lemma_trim_back(s.skip(lo as int), hi - lo);
        assert(trimmed(s) =~= s.subrange(lo as int, hi as int));
    }
    (lo, hi)
}

/// Scans the run of digits beginning at `p0`. Returns its end and the
/// value of the run, capped at `VAL_CAP`; the cap only ever takes effect
/// on values whose milliseconds overflow a `u32` anyway.
fn scan_int(out: &[u8], p0: usize, hi: usize) -> (r: (usize, u64))
    requires
        p0 <= hi <= out@.len(),
    ensures
        p0 <= r.0 <= hi,
        forall|i: int| p0 <= i < r.0 ==> is_digit(out@[i]),
        r.0 < hi ==> !is_digit(out@[r.0 as int]),
        r.1 <= VAL_CAP,
        r.1 as int == (if digits_val(out@.subrange(p0 as int, r.0 as int)) > VAL_CAP {
            VAL_CAP as int
        } else {
            digits_val(out@.subrange(p0 as int, r.0 as int))
        }),
{
    let ghost s = out@;
    let mut j = p0;
    let mut acc: u64 = 0;
    while j < hi
        invariant
            p0 <= j <= hi <= s.len(),
            s == out@,
            forall|i: int| p0 <= i < j ==> is_digit(s[i]),
            acc <= VAL_CAP,
            acc as int == (if digits_val(s.subrange(p0 as int, j as int)) > VAL_CAP {
                VAL_CAP as int
            } else {
                digits_val(s.subrange(p0 as int, j as int))
            }),
        ensures
            p0 <= j <= hi,
            forall|i: int| p0 <= i < j ==> is_digit(s[i]),
            j == hi || !is_digit(s[j as int]),
            acc <= VAL_CAP,
            acc as int == (if digits_val(s.subrange(p0 as int, j as int)) > VAL_CAP {
                VAL_CAP as int
            } else {
                digits_val(s.subrange(p0 as int, j as int))
            }),
        decreases hi - j,
    {
        if !is_digit_byte(out[j]) {
            break;
        }
        let d = (out[j] - 48) as u64;
        proof {
            let pref = s.subrange(p0 as int, j as int);
            let pref2 = s.subrange(p0 as int, j as int + 1);
            assert(pref2.drop_last() =~= pref);
            assert(pref2.last() == s[j as int]);
            assert(all_digits(pref)) by {
                assert(forall|i: int| 0 <= i < pref.len() ==> pref[i] == s[p0 + i]);
            }
            lemma_digits_val_nonneg(pref);
        }
        acc = acc * 10 + d;
        if acc > VAL_CAP {
            acc = VAL_CAP;
        }
        j = j + 1;
    }
    (j, acc)
}

/// Scans the fractional digits in `[fstart, hi)`. `Some` carries their
/// millisecond value when all bytes are digits; `None` reports a
/// non-digit byte.
fn scan_frac(out: &[u8], fstart: usize, hi: usize) -> (r: Option<u64>)
    requires
        fstart <= hi <= out@.len(),
    ensures
        r matches Some(fv) ==> {
            &&& all_digits(out@.subrange(fstart as int, hi as int))
            &&& fv == frac_ms(out@.subrange(fstart as int, hi as int))
        },
        r is None ==> !all_digits(out@.subrange(fstart as int, hi as int)),
{
    let ghost s = out@;
    let ghost f = s.subrange(fstart as int, hi as int);
    let mut m = fstart;
    let mut d0: u64 = 0;
    let mut d1: u64 = 0;
    let mut d2: u64 = 0;
    while m < hi
        invariant
            fstart <= m <= hi <= s.len(),
            s == out@,
            f == s.subrange(fstart as int, hi as int),
            forall|i: int| fstart <= i < m ==> is_digit(s[i]),
            d0 as int == (if m - fstart >= 1 {
                s[fstart as int] - 48
            } else {
                0
            }),
            d1 as int == (if m - fstart >= 2 {
                s[fstart as int + 1] - 48
            } else {
                0
            }),
            d2 as int == (if m - fstart >= 3 {
                s[fstart as int + 2] - 48
            } else {
                0
            }),
        decreases hi - m,
    {
        let b = out[m];
        if !is_digit_byte(b) {
            proof {
                assert(f[m - fstart] == s[m as int]);
                assert(!all_digits(f));
            }
            return None;
        }
        if m == fstart {
            d0 = (b - 48) as u64;
        } else if m == fstart + 1 {
            d1 = (b - 48) as u64;
        } else if m == fstart + 2 {
            d2 = (b - 48) as u64;
        }
        m = m + 1;
    }
    proof {
        assert(all_digits(f)) by {
            assert(forall|i: int| 0 <= i < f.len() ==> f[i] == s[fstart + i]);
        }
        assert(frac_ms(f) == 100 * (d0 as int) + 10 * (d1 as int) + (d2 as int));
    }
    Some(100 * d0 + 10 * d1 + d2)
}

/// Parses the probe's raw output bytes as a duration in milliseconds.
#[verifier::rlimit(50)]
pub fn parse_duration_ms(out: &[u8]) -> (r: Option<u32>)
    ensures
        r == duration_ms_spec(out@),
{
    let ghost s = out@;
    let (lo, hi) = trim_bounds(out);
    let ghost t = s.subrange(lo as int, hi as int);

    let mut p0 = lo;
    let mut neg = false;
    if lo < hi && (out[lo] == 43 || out[lo] == 45) {
        neg = out[lo] == 45;
        p0 = lo + 1;
    }
    let ghost u = s.subrange(p0 as int, hi as int);
    proof {
        if t.len() > 0 && (t[0] == 43 || t[0] == 45) {
            assert(u =~= t.skip(1));
        } else {
            assert(u =~= t);
        }
    }

    let (j, acc) = scan_int(out, p0, hi);
    let ghost k = j - p0;
    proof {
        assert(forall|i: int| 0 <= i < k ==> u[i] == s[p0 + i]);
        lemma_split_prefix(u, k as int);
        assert(u.take(k as int) =~= s.subrange(p0 as int, j as int));
    }

    let frac_value: u64;
    let frac_len: usize;
    if j == hi {
        proof {
            assert(u.skip(k as int) =~= Seq::<u8>::empty());
            assert(u.take(k as int) + Seq::<u8>::empty() =~= u.take(k as int));
        }
        frac_value = 0;
        frac_len = 0;
    } else if out[j] == 46 {
        let fstart = j + 1;
        let ghost f = s.subrange(fstart as int, hi as int);
        proof {
            assert(u.skip(k as int)[0] == s[j as int]);
            assert(u.skip(k as int).skip(1) =~= u.skip(k as int + 1));
            assert(u.skip(k as int + 1) =~= f);
        }
        match scan_frac(out, fstart, hi) {
            Some(fv) => {
                proof {
                    assert(u.take(k as int) + Seq::<u8>::empty() =~= u.take(k as int));
                }
                frac_value = fv;
                frac_len = hi - fstart;
            },
            None => {
                return None;
            },
        }
    } else {
        proof {
            assert(u.skip(k as int)[0] == s[j as int]);
        }
        return None;
    }

    if j == p0 && frac_len == 0 {
        return None;
    }
    if neg {
        return Some(0);
    }
    let ms = acc * 1000 + frac_value;
    proof {
        let pref = s.subrange(p0 as int, j as int);
        assert(all_digits(pref)) by {
            assert(forall|i: int| 0 <= i < pref.len() ==> pref[i] == s[p0 + i]);
        }
        lemma_digits_val_nonneg(pref);
    }
    if ms > 4294967295 {
        Some(u32::MAX)
    } else {
        Some(ms as u32)
    }
}

} // verus!
