use vstd::prelude::*;
use crate::config::ConfigError;
use vstd::string::StringSliceAdditionalSpecFns;

verus! {

/// Fewest mantissa bits any high-precision value is given.
pub const MIN_PRECISION: u64 = 53;

/// Bits of headroom kept above the scale of the view.
pub const PRECISION_HEADROOM: u64 = 64;

/// Extra bits added to the precision a decimal literal needs.
pub const LITERAL_GUARD_BITS: u64 = 16;

pub open spec fn abs_int(v: int) -> int {
    if v < 0 { -v } else { v }
}

/// The binary exponent of a value, where an exact zero counts as 0.
pub open spec fn exp_or_zero(e: Option<i32>) -> int {
    match e {
        Some(v) => v as int,
        None => 0,
    }
}

/// The working precision of a view whose zoom and centre coordinates have
/// the binary exponents `ez`, `ex` and `ey`:
/// `max(53, 64 + |exp(z)| + max(|exp(cx)|, |exp(cy)|))`.
pub open spec fn required_precision_spec(ez: Option<i32>, ex: Option<i32>, ey: Option<i32>) -> int {
    let z = abs_int(exp_or_zero(ez));
    let x = abs_int(exp_or_zero(ex));
    let y = abs_int(exp_or_zero(ey));
    let c = if x >= y { x } else { y };
    let p = PRECISION_HEADROOM + z + c;
    if p >= MIN_PRECISION { p } else { MIN_PRECISION as int }
}

fn abs_exp(e: Option<i32>) -> (r: u64)
    ensures
        r == abs_int(exp_or_zero(e)),
{
    match e {
        Some(v) => {
            let w: i64 = v as i64;
            if w < 0 { (-w) as u64 } else { w as u64 }
        },
        None => 0,
    }
}

/// The precision, in bits, that the centre and zoom of a view must carry.
pub fn required_precision(ez: Option<i32>, ex: Option<i32>, ey: Option<i32>) -> (r: u64)
    ensures
        r == required_precision_spec(ez, ex, ey),
{
    let z = abs_exp(ez);
    let x = abs_exp(ex);
    let y = abs_exp(ey);
    let c: u64 = if x >= y { x } else { y };
    let p: u64 = PRECISION_HEADROOM + z + c;
    if p >= MIN_PRECISION { p } else { MIN_PRECISION }
}

/// The precision after a write to the view: raised to the requirement when
/// that exceeds `current`, never lowered.
pub fn raise_precision(current: u64, ez: Option<i32>, ex: Option<i32>, ey: Option<i32>) -> (r: u64)
    ensures
        r == if required_precision_spec(ez, ex, ey) > current {
            required_precision_spec(ez, ex, ey)
        } else {
            current as int
        },
{
    let need = required_precision(ez, ex, ey);
    if need > current { need } else { current }
}

pub open spec fn is_digit(c: u8) -> bool {
    48 <= c <= 57
}

pub open spec fn all_digits(t: Seq<u8>) -> bool {
    forall|i: int| 0 <= i < t.len() ==> is_digit(#[trigger] t[i])
}

/// Number of ASCII digits in `t`.
pub open spec fn count_digits(t: Seq<u8>) -> nat
    decreases t.len(),
{
    if t.len() == 0 {
        0
    } else {
        count_digits(t.drop_last()) + if is_digit(t.last()) { 1nat } else { 0nat }
    }
}

/// The value of a string of ASCII digits.
pub open spec fn digits_value(t: Seq<u8>) -> int
    decreases t.len(),
{
    if t.len() == 0 {
        0
    } else {
        digits_value(t.drop_last()) * 10 + (t.last() - 48)
    }
}

/// An `i32` written in decimal with an optional `+` or `-` sign, as
/// `str::parse::<i32>` reads it; `None` when the text is not one.
pub open spec fn parse_i32_spec(t: Seq<u8>) -> Option<int> {
    let signed = t.len() > 0 && (t[0] == 45u8 || t[0] == 43u8);
    let body = if signed { t.drop_first() } else { t };
    let v = if signed && t[0] == 45u8 { -digits_value(body) } else { digits_value(body) };
    if body.len() == 0 || !all_digits(body) || v < i32::MIN || v > i32::MAX {
        None
    } else {
        Some(v)
    }
}

/// Index of the first `e` in `b`, or its length when there is none.
pub open spec fn exponent_mark(b: Seq<u8>) -> nat
    decreases b.len(),
{
    if b.len() == 0 {
        0
    } else if b[0] == 101u8 {
        0
    } else {
        1 + exponent_mark(b.drop_first())
    }
}

/// The number of decimal digits a literal stands for: its digits before
/// any `e`, plus the magnitude of the exponent after it.
pub open spec fn literal_digits(b: Seq<u8>) -> Option<int> {
    let k = exponent_mark(b) as int;
    let m = count_digits(b.subrange(0, k)) as int;
    if k == b.len() {
        Some(m)
    } else {
        match parse_i32_spec(b.subrange(k + 1, b.len() as int)) {
            Some(e) => Some(m + abs_int(e)),
            None => None,
        }
    }
}

/// `ceil(digits · 3.322) + 16` bits, at least 53: enough to hold `digits`
/// decimal digits. The factor 3.322 is a deliberate rational bound just
/// above `log2(10) = 3.32193…`, so the result is never fewer bits than
/// `ceil(digits · log2(10)) + 16`, and at most one bit more for literals of
/// up to 13 000 digits.
pub open spec fn precision_for_digits(d: int) -> int {
    let p = (d * 3322 + 999) / 1000 + LITERAL_GUARD_BITS;
    if p >= MIN_PRECISION { p } else { MIN_PRECISION as int }
}

proof fn lemma_digits_value_nonneg(t: Seq<u8>)
    requires
        all_digits(t),
    ensures
        digits_value(t) >= 0,
    decreases t.len(),
{
    if t.len() > 0 {
        assert(all_digits(t.drop_last()));
        lemma_digits_value_nonneg(t.drop_last());
        assert(is_digit(t[t.len() - 1]));
    }
}

proof fn lemma_digits_value_prefix(t: Seq<u8>, k: int)
    requires
        all_digits(t),
        0 <= k <= t.len(),
    ensures
        digits_value(t.subrange(0, k)) <= digits_value(t),
    decreases t.len(),
{
    if k < t.len() {
        assert(all_digits(t.drop_last()));
        lemma_digits_value_prefix(t.drop_last(), k);
        assert(t.drop_last().subrange(0, k) =~= t.subrange(0, k));
        lemma_digits_value_nonneg(t.drop_last());
        assert(is_digit(t[t.len() - 1]));
    } else {
        assert(t.subrange(0, k) =~= t);
    }
}

proof fn lemma_exponent_mark(b: Seq<u8>, k: int)
    requires
        0 <= k <= b.len(),
        forall|j: int| 0 <= j < k ==> b[j] != 101u8,
        k == b.len() || b[k] == 101u8,
    ensures
        exponent_mark(b) == k,
    decreases k,
{
    if k > 0 {
        lemma_exponent_mark(b.drop_first(), k - 1);
    }
}

/// Reads the digits `b[from..]` as an unsigned magnitude; `None` when one
/// of them is not a digit, or when the value exceeds `2^31`.
fn parse_magnitude(b: &[u8], from: usize) -> (r: Option<u64>)
    requires
        from <= b@.len(),
    ensures
        match r {
            Some(v) => all_digits(b@.subrange(from as int, b@.len() as int))
                && v == digits_value(b@.subrange(from as int, b@.len() as int))
                && v <= 0x8000_0000,
            None => !all_digits(b@.subrange(from as int, b@.len() as int))
                || digits_value(b@.subrange(from as int, b@.len() as int)) > 0x8000_0000,
        },
{
    let ghost t = b@.subrange(from as int, b@.len() as int);
    let mut acc: u64 = 0;
    let mut i: usize = from;
    while i < b.len()
        invariant
            from <= i <= b@.len(),
            t == b@.subrange(from as int, b@.len() as int),
            all_digits(b@.subrange(from as int, i as int)),
            acc == digits_value(b@.subrange(from as int, i as int)),
            acc <= 0x8000_0000,
        decreases b.len() - i,
    {
        let c = b[i];
        let ghost p = b@.subrange(from as int, i as int + 1);
        proof {
            assert(p.drop_last() =~= b@.subrange(from as int, i as int));
            assert(p =~= t.subrange(0, i - from + 1));
        }
        if c < 48 || c > 57 {
            assert(!is_digit(t[i - from]));
            return None;
        }
        acc = acc * 10 + (c - 48) as u64;
        i = i + 1;
        if acc > 0x8000_0000 {
            proof {
                assert(all_digits(p));
                if all_digits(t) {
                    lemma_digits_value_prefix(t, i - from);
                }
            }
            return None;
        }
    }
    assert(b@.subrange(from as int, i as int) =~= t);
    Some(acc)
}

/// Reads `b[from..]` as `str::parse::<i32>` does.
fn parse_i32_tail(b: &[u8], from: usize) -> (r: Option<i32>)
    requires
        from <= b@.len(),
    ensures
        match parse_i32_spec(b@.subrange(from as int, b@.len() as int)) {
            Some(v) => r == Some(v as i32),
            None => r is None,
        },
{
    let ghost t = b@.subrange(from as int, b@.len() as int);
    let signed = from < b.len() && (b[from] == 45u8 || b[from] == 43u8);
    let negative = signed && b[from] == 45u8;
    let start: usize = if signed { from + 1 } else { from };
    proof {
        if signed {
            assert(t.drop_first() =~= b@.subrange(start as int, b@.len() as int));
        } else {
            assert(t =~= b@.subrange(start as int, b@.len() as int));
        }
    }
    if start == b.len() {
        return None;
    }
    match parse_magnitude(b, start) {
        None => None,
        Some(m) => {
            if negative {
                Some((-(m as i64)) as i32)
            } else if m <= 0x7fff_ffff {
                Some(m as i32)
            } else {
                None
            }
        },
    }
}

/// The precision a decimal literal is read at: `ceil(digits · 3.322) + 16`
/// bits, at least 53, where `digits` counts the digits before any `e` and
/// adds the magnitude of the exponent after it.
pub fn literal_precision(s: &str) -> (r: Result<u64, ConfigError>)
    ensures
        match literal_digits(s.spec_bytes()) {
            None => r == Err::<u64, ConfigError>(ConfigError::MalformedDecimal),
            Some(d) => if precision_for_digits(d) <= u64::MAX {
                r == Ok::<u64, ConfigError>(precision_for_digits(d) as u64)
            } else {
                r == Err::<u64, ConfigError>(ConfigError::PrecisionTooLarge)
            },
        },
{
    let b = s.as_bytes();
    let ghost bs = b@;
    let mut k: usize = 0;
    let mut m: u64 = 0;
    while k < b.len() && b[k] != 101u8
        invariant
            k <= bs.len(),
            bs == b@,
            forall|j: int| 0 <= j < k ==> bs[j] != 101u8,
            m == count_digits(bs.subrange(0, k as int)),
            m <= k,
        decreases b.len() - k,
    {
        proof {
            assert(bs.subrange(0, k as int + 1).drop_last() =~= bs.subrange(0, k as int));
        }
        if b[k] >= 48 && b[k] <= 57 {
            m = m + 1;
        }
        k = k + 1;
    }
    proof {
        lemma_exponent_mark(bs, k as int);
    }
    let mut digits: u128 = m as u128;
    if k < b.len() {
        match parse_i32_tail(b, k + 1) {
            None => {
                return Err(ConfigError::MalformedDecimal);
            },
            Some(e) => {
                let w: i64 = e as i64;
                let a: u64 = if w < 0 { (-w) as u64 } else { w as u64 };
                digits = digits + a as u128;
            },
        }
    }
    let p: u128 = (digits * 3322 + 999) / 1000 + LITERAL_GUARD_BITS as u128;
    let p: u128 = if p >= MIN_PRECISION as u128 { p } else { MIN_PRECISION as u128 };
    if p > u64::MAX as u128 {
        Err(ConfigError::PrecisionTooLarge)
    } else {
        Ok(p as u64)
    }
}

} // verus!
