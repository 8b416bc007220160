//! Decimal numbers read exactly from their JSON text.
use vstd::prelude::*;

use crate::text::{before_either, before_first, char_to_digit, chars_of, digit_value, find_either, find_first, push_range};

verus! {

/// A decimal number, `digits × 10^-scale`, exactly as the document wrote it
/// (`-1.15` is `digits: -115, scale: 2`; `1.5e-3` is `digits: 15, scale: 4`).
#[derive(Debug, Clone, Copy, PartialEq, Eq, Structural)]
pub struct Decimal {
    pub digits: i64,
    pub scale: u32,
}

impl Decimal {
    pub fn new(digits: i64, scale: u32) -> (r: Decimal)
        ensures
            r.digits == digits,
            r.scale == scale,
    {
        Decimal { digits, scale }
    }
}

/// Every character of `s` is a decimal digit.
pub open spec fn all_digits(s: Seq<char>) -> bool {
    forall|i: int| 0 <= i < s.len() ==> (#[trigger] digit_value(s[i])) is Some
}

/// The number that a run of decimal digits writes.
pub open spec fn digits_value(s: Seq<char>) -> nat
    decreases s.len(),
{
    if s.len() == 0 {
        0
    } else {
        digits_value(s.drop_last()) * 10 + digit_value(s.last()).unwrap_or(0)
    }
}

/// `10^n`.
pub open spec fn pow10(n: nat) -> nat
    decreases n,
{
    if n == 0 { 1 } else { 10 * pow10((n - 1) as nat) }
}

pub proof fn lemma_pow10_pos(n: nat)
    ensures
        pow10(n) >= 1,
    decreases n,
{
    if n > 0 {
        lemma_pow10_pos((n - 1) as nat);
    }
}

pub proof fn lemma_pow10_ge(m: nat, n: nat)
    requires
        m <= n,
    ensures
        pow10(m) <= pow10(n),
    decreases n,
{
    if m < n {
        lemma_pow10_ge(m, (n - 1) as nat);
    }
}

/// The text after the sign, if any.
pub open spec fn unsigned_part(s: Seq<char>) -> Seq<char> {
    if s.len() > 0 && s[0] == '-' { s.drop_first() } else { s }
}

/// The unsigned text before the exponent.
pub open spec fn mantissa_part(s: Seq<char>) -> Seq<char> {
    before_either(unsigned_part(s), 'e', 'E')
}

/// The digits before the decimal point.
pub open spec fn integer_part(s: Seq<char>) -> Seq<char> {
    before_first(mantissa_part(s), '.')
}

/// Whether the mantissa has a decimal point.
pub open spec fn has_point(s: Seq<char>) -> bool {
    integer_part(s).len() < mantissa_part(s).len()
}

/// The digits after the decimal point (empty where there is no point).
pub open spec fn fraction_part(s: Seq<char>) -> Seq<char> {
    let m = mantissa_part(s);
    if has_point(s) { m.subrange(integer_part(s).len() as int + 1, m.len() as int) } else { Seq::empty() }
}

/// Whether the text has an exponent.
pub open spec fn has_exponent(s: Seq<char>) -> bool {
    mantissa_part(s).len() < unsigned_part(s).len()
}

/// The text after `e` or `E` (empty where there is none).
pub open spec fn exponent_part(s: Seq<char>) -> Seq<char> {
    let u = unsigned_part(s);
    if has_exponent(s) { u.subrange(mantissa_part(s).len() as int + 1, u.len() as int) } else { Seq::empty() }
}

/// Whether the exponent is negative.
pub open spec fn exponent_negative(s: Seq<char>) -> bool {
    exponent_part(s).len() > 0 && exponent_part(s)[0] == '-'
}

/// The exponent's digits, after its sign if any.
pub open spec fn exponent_digits(s: Seq<char>) -> Seq<char> {
    let t = exponent_part(s);
    if t.len() > 0 && (t[0] == '+' || t[0] == '-') { t.drop_first() } else { t }
}

/// The exponent (0 where there is none).
pub open spec fn exponent_value(s: Seq<char>) -> int {
    if exponent_negative(s) { -digits_value(exponent_digits(s)) } else { digits_value(exponent_digits(s)) as int }
}

/// The text of a JSON number: an optional `-`, one or more digits, optionally
/// a `.` followed by one or more digits, and optionally `e` or `E`, a sign
/// and one or more digits.
pub open spec fn is_number(s: Seq<char>) -> bool {
    &&& integer_part(s).len() > 0
    &&& all_digits(integer_part(s))
    &&& has_point(s) ==> fraction_part(s).len() > 0 && all_digits(fraction_part(s))
    &&& has_exponent(s) ==> exponent_digits(s).len() > 0 && all_digits(exponent_digits(s))
}

/// The magnitude of the number, as an integer count of `10^-scale`.
pub open spec fn scaled_magnitude(s: Seq<char>) -> nat {
    let m = digits_value(integer_part(s) + fraction_part(s));
    let f = fraction_part(s).len() as int;
    let e = exponent_value(s);
    if e > f { m * pow10((e - f) as nat) } else { m }
}

/// The number of decimal places of the number's exact form.
pub open spec fn scale_of(s: Seq<char>) -> int {
    let f = fraction_part(s).len() as int;
    let e = exponent_value(s);
    if e > f { 0 } else { f - e }
}

/// The decimal that the number text `s` writes, where `s` is a JSON number
/// whose exponent's digits are at most `u32::MAX`, and whose exact form
/// (the integer of its digits, scaled up by the exponent where that passes
/// the decimal places) has an `i64` of digits and a `u32` of places.
pub open spec fn decimal_of(s: Seq<char>) -> Option<Decimal> {
    let magnitude = scaled_magnitude(s);
    let value = if s.len() > 0 && s[0] == '-' { -magnitude } else { magnitude as int };
    if is_number(s) && digits_value(exponent_digits(s)) <= u32::MAX && i64::MIN <= value <= i64::MAX
        && scale_of(s) <= u32::MAX {
        Some(Decimal { digits: value as i64, scale: scale_of(s) as u32 })
    } else {
        None
    }
}

proof fn lemma_digits_prefix(s: Seq<char>, k: int)
    requires
        0 <= k <= s.len(),
    ensures
        digits_value(s.subrange(0, k)) <= digits_value(s),
    decreases s.len() - k,
{
    if k < s.len() {
        lemma_digits_prefix(s.drop_last(), k);
        assert(s.drop_last().subrange(0, k) =~= s.subrange(0, k));
    } else {
        assert(s.subrange(0, k) =~= s);
    }
}

/// The number that the digits `cs[from..to]` write; `None` where it passes `u64::MAX`.
fn read_digits(cs: &Vec<char>, from: usize, to: usize) -> (r: Option<u64>)
    requires
        from <= to <= cs@.len(),
        all_digits(cs@.subrange(from as int, to as int)),
    ensures
        r matches Some(v) ==> v == digits_value(cs@.subrange(from as int, to as int)),
        r is None ==> digits_value(cs@.subrange(from as int, to as int)) > u64::MAX,
{
    let ghost all = cs@.subrange(from as int, to as int);
    let mut acc: u64 = 0;
    let mut i: usize = from;
    assert(cs@.subrange(from as int, from as int) =~= Seq::<char>::empty());
    while i < to
        invariant
            from <= i <= to <= cs@.len(),
            all == cs@.subrange(from as int, to as int),
            all_digits(all),
            acc == digits_value(cs@.subrange(from as int, i as int)),
        decreases to - i,
    {
        let ghost prefix = cs@.subrange(from as int, i as int + 1);
        proof {
            assert(prefix.drop_last() =~= cs@.subrange(from as int, i as int));
            assert(prefix.last() == all[i - from]);
            assert(digit_value(all[i - from]) is Some);
        }
        let d = match char_to_digit(cs[i]) {
            Some(d) => d,
            None => { return None; },
        };
        if acc > (u64::MAX - d as u64) / 10 {
            proof {
                assert(acc * 10 + d > u64::MAX) by (nonlinear_arith)
                    requires acc > (u64::MAX - d as u64) / 10, d < 10;
                assert(all.subrange(0, i - from + 1) =~= prefix);
                lemma_digits_prefix(all, i - from + 1);
            }
            return None;
        }
        acc = acc * 10 + d as u64;
        i = i + 1;
    }
    proof {
        assert(cs@.subrange(from as int, i as int) =~= all);
    }
    Some(acc)
}

/// Whether every character of `cs[from..to]` is a decimal digit.
fn digits_only(cs: &Vec<char>, from: usize, to: usize) -> (r: bool)
    requires
        from <= to <= cs@.len(),
    ensures
        r == all_digits(cs@.subrange(from as int, to as int)),
{
    let mut i: usize = from;
    while i < to
        invariant
            from <= i <= to <= cs@.len(),
            forall|j: int| from <= j < i ==> (#[trigger] digit_value(cs@[j])) is Some,
        decreases to - i,
    {
        if char_to_digit(cs[i]).is_none() {
            assert(digit_value(cs@.subrange(from as int, to as int)[i - from]) is None);
            return false;
        }
        i = i + 1;
    }
    assert forall|j: int| 0 <= j < to - from implies (#[trigger] digit_value(cs@.subrange(from as int, to as int)[j])) is Some by {
        assert(cs@.subrange(from as int, to as int)[j] == cs@[from + j]);
    }
    true
}

/// Appends the digits `cs[from..to]`, of which there is at least one, to
/// `out`, if all of them are digits.
fn push_digit_run(out: &mut Vec<char>, cs: &Vec<char>, from: usize, to: usize) -> (ok: bool)
    requires
        from <= to <= cs@.len(),
    ensures
        ok == (from < to && all_digits(cs@.subrange(from as int, to as int))),
        ok ==> final(out)@ == old(out)@ + cs@.subrange(from as int, to as int),
{
    if from == to || !digits_only(cs, from, to) {
        return false;
    }
    push_range(out, cs, from, to);
    true
}

/// `magnitude · 10^shift`; `None` where that passes `u64::MAX`.
fn scale_up(magnitude: u64, shift: u64) -> (r: Option<u64>)
    ensures
        r matches Some(v) ==> v == magnitude * pow10(shift as nat),
        r is None ==> magnitude * pow10(shift as nat) > u64::MAX,
{
    if magnitude == 0 {
        assert(magnitude * pow10(shift as nat) == 0);
        return Some(0);
    }
    let mut v: u64 = magnitude;
    let mut k: u64 = 0;
    assert(pow10(0) == 1);
    while k < shift
        invariant
            k <= shift,
            magnitude >= 1,
            v == magnitude * pow10(k as nat),
        decreases shift - k,
    {
        if v > u64::MAX / 10 {
            proof {
                lemma_pow10_ge((k + 1) as nat, shift as nat);
                assert(pow10((k + 1) as nat) == 10 * pow10(k as nat));
                assert(magnitude * pow10((k + 1) as nat) == 10 * v) by (nonlinear_arith)
                    requires v == magnitude * pow10(k as nat), pow10((k + 1) as nat) == 10 * pow10(k as nat);
                assert(magnitude * pow10((k + 1) as nat) <= magnitude * pow10(shift as nat)) by (nonlinear_arith)
                    requires pow10((k + 1) as nat) <= pow10(shift as nat), magnitude >= 1;
            }
            return None;
        }
        proof {
            assert(pow10((k + 1) as nat) == 10 * pow10(k as nat));
            assert(magnitude * pow10((k + 1) as nat) == 10 * v) by (nonlinear_arith)
                requires v == magnitude * pow10(k as nat), pow10((k + 1) as nat) == 10 * pow10(k as nat);
        }
        v = v * 10;
        k = k + 1;
    }
    Some(v)
}

/// Reads the text of a JSON number as an exact decimal.
#[verifier::rlimit(80)]
pub fn parse_decimal(s: &str) -> (r: Option<Decimal>)
    ensures
        r == decimal_of(s@),
{
    let cs = chars_of(s);
    let len = cs.len();
    let negative = len > 0 && cs[0] == '-';
    let start: usize = if negative { 1 } else { 0 };
    let ghost u = unsigned_part(s@);
    assert(u =~= cs@.subrange(start as int, len as int));
    let mantissa_end = find_either(&cs, start, len, 'e', 'E');
    let ghost m = mantissa_part(s@);
    assert(m =~= cs@.subrange(start as int, mantissa_end as int));
    assert(m.subrange(0, m.len() as int) =~= m);
    let dot = find_first(&cs, start, mantissa_end, '.');
    assert(integer_part(s@) =~= cs@.subrange(start as int, dot as int));
    let frac_start: usize = if dot < mantissa_end { dot + 1 } else { dot };
    assert(fraction_part(s@) =~= cs@.subrange(frac_start as int, mantissa_end as int));
    let mut ds: Vec<char> = Vec::new();
    if !push_digit_run(&mut ds, &cs, start, dot) {
        return None;
    }
    if dot < mantissa_end && !push_digit_run(&mut ds, &cs, frac_start, mantissa_end) {
        return None;
    }
    assert(ds@ =~= integer_part(s@) + fraction_part(s@));
    // The exponent.
    let exp_start: usize = if mantissa_end < len { mantissa_end + 1 } else { len };
    assert(exponent_part(s@) =~= cs@.subrange(exp_start as int, len as int));
    let exp_negative = exp_start < len && cs[exp_start] == '-';
    let digits_start: usize = if exp_start < len && (cs[exp_start] == '+' || cs[exp_start] == '-') {
        exp_start + 1
    } else {
        exp_start
    };
    assert(exponent_digits(s@) =~= cs@.subrange(digits_start as int, len as int));
    let mut exponent: u64 = 0;
    if mantissa_end < len {
        let mut scratch: Vec<char> = Vec::new();
        if !push_digit_run(&mut scratch, &cs, digits_start, len) {
            return None;
        }
        exponent = match read_digits(&cs, digits_start, len) {
            Some(e) => e,
            None => { return None; },
        };
        if exponent > u32::MAX as u64 {
            return None;
        }
    } else {
        assert(exponent_digits(s@) =~= Seq::<char>::empty());
    }
    assert(exponent == digits_value(exponent_digits(s@)));
    assert(ds@.subrange(0, ds@.len() as int) =~= ds@);
    let mantissa = match read_digits(&ds, 0, ds.len()) {
        Some(v) => v,
        None => {
            proof {
                let f = fraction_part(s@).len() as int;
                let e = exponent_value(s@);
                if e > f {
                    lemma_pow10_pos((e - f) as nat);
                    let mm = digits_value(integer_part(s@) + fraction_part(s@));
                    assert(mm * pow10((e - f) as nat) >= mm) by (nonlinear_arith)
                        requires pow10((e - f) as nat) >= 1;
                }
            }
            return None;
        },
    };
    let places: u64 = (mantissa_end - frac_start) as u64;
    let (magnitude, scale): (u64, i128) = if !exp_negative && exponent > places {
        match scale_up(mantissa, exponent - places) {
            Some(v) => (v, 0),
            None => { return None; },
        }
    } else if exp_negative {
        (mantissa, places as i128 + exponent as i128)
    } else {
        (mantissa, places as i128 - exponent as i128)
    };
    assert(magnitude == scaled_magnitude(s@));
    assert(scale == scale_of(s@));
    if scale > u32::MAX as i128 {
        return None;
    }
    if negative {
        if magnitude > 9223372036854775808u64 {
            return None;
        }
        Some(Decimal { digits: (0i128 - magnitude as i128) as i64, scale: scale as u32 })
    } else {
        if magnitude > i64::MAX as u64 {
            return None;
        }
        Some(Decimal { digits: magnitude as i64, scale: scale as u32 })
    }
}

} // verus!
