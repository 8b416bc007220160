//! Geographic coordinates and their sexagesimal rendering.
use vstd::prelude::*;
use vstd::arithmetic::div_mod::{lemma_div_is_ordered, lemma_div_multiples_vanish, lemma_fundamental_div_mod};

use crate::number::{lemma_pow10_ge, lemma_pow10_pos, pow10, Decimal};
use crate::text::{decimal_text, push_decimal, string_of};

verus! {

/// One coordinate in decimal degrees (negative west of Greenwich, or south of
/// the equator).
#[derive(Debug, Clone, Copy, PartialEq, Eq, Structural)]
pub struct DecimalDegrees(pub Decimal);

/// Longitude and latitude of a tidal station, in that order on the wire.
#[derive(Debug, Clone, Copy, PartialEq, Eq, Structural)]
pub struct Coordinates {
    pub longitude: DecimalDegrees,
    pub latitude: DecimalDegrees,
}

/// `|x|`.
pub open spec fn abs(x: int) -> nat {
    if x < 0 { (-x) as nat } else { x as nat }
}

/// Whole degrees, whole minutes and whole seconds of the magnitude of `d`,
/// each truncated.
pub open spec fn dms(d: Decimal) -> (nat, nat, nat) {
    let p = pow10(d.scale as nat);
    let a = abs(d.digits as int);
    let f = a % p;
    let minutes = (60 * f) / p;
    ((a / p) as nat, minutes as nat, ((3600 * f) / p - 60 * minutes) as nat)
}

/// `n` written with at least two digits.
pub open spec fn two_digit_text(n: nat) -> Seq<char> {
    if n < 10 { seq!['0'] + decimal_text(n) } else { decimal_text(n) }
}

/// `D°MM′SS″`: the degrees (capped at 255), then minutes and seconds with two digits.
pub open spec fn dms_text(d: Decimal) -> Seq<char> {
    let (deg, min, sec) = dms(d);
    decimal_text(if deg > 255 { 255 } else { deg }) + seq!['°'] + two_digit_text(min) + seq!['′']
        + two_digit_text(sec) + seq!['″']
}

/// `LATN LON` followed by `E` where the longitude is not negative, else `W`.
pub open spec fn coordinates_text(c: Coordinates) -> Seq<char> {
    dms_text(c.latitude.0) + seq!['N', ' '] + dms_text(c.longitude.0)
        + seq![if c.longitude.0.digits >= 0 { 'E' } else { 'W' }]
}

proof fn lemma_dms_bounds(a: int, p: int)
    requires
        p >= 1,
        a >= 0,
    ensures
        0 <= a % p < p,
        0 <= (60 * (a % p)) / p < 60,
        60 * ((60 * (a % p)) / p) <= (3600 * (a % p)) / p,
        (3600 * (a % p)) / p < 3600,
        0 <= a / p <= a,
{
    let f = a % p;
    let m = (60 * f) / p;
    lemma_fundamental_div_mod(a, p);
    lemma_fundamental_div_mod(60 * f, p);
    assert(0 <= f < p);
    assert(m >= 0) by (nonlinear_arith)
        requires 60 * f == p * m + (60 * f) % p, 0 <= (60 * f) % p < p, f >= 0, p >= 1;
    assert(m * p <= 60 * f) by (nonlinear_arith)
        requires 60 * f == p * m + (60 * f) % p, (60 * f) % p >= 0;
    assert((60 * m) * p <= 3600 * f) by (nonlinear_arith)
        requires m * p <= 60 * f;
    lemma_div_is_ordered((60 * m) * p, 3600 * f, p);
    lemma_div_multiples_vanish(60 * m, p);
    assert(m < 60) by (nonlinear_arith)
        requires m * p <= 60 * f, f < p, p >= 1, m >= 0;
    lemma_fundamental_div_mod(3600 * f, p);
    assert((3600 * f) / p < 3600) by (nonlinear_arith)
        requires 3600 * f == p * ((3600 * f) / p) + (3600 * f) % p, (3600 * f) % p >= 0, f < p, p >= 1;
    assert(0 <= a / p <= a) by (nonlinear_arith)
        requires a == p * (a / p) + a % p, 0 <= a % p < p, p >= 1, a >= 0;
}

/// Appends `n` with at least two digits.
fn push_two_digits(out: &mut Vec<char>, n: u64)
    ensures
        final(out)@ == old(out)@ + two_digit_text(n as nat),
{
    if n < 10 {
        out.push('0');
    }
    push_decimal(out, n);
    assert(final(out)@ =~= old(out)@ + two_digit_text(n as nat));
}

/// Appends the sexagesimal text of `d`.
fn push_dms(out: &mut Vec<char>, d: Decimal)
    ensures
        final(out)@ == old(out)@ + dms_text(d),
{
    let a: u64 = if d.digits < 0 { (0i128 - d.digits as i128) as u64 } else { d.digits as u64 };
    let ghost p = pow10(d.scale as nat);
    let (deg, min, sec): (u64, u64, u64) = if d.scale > 30 {
        proof {
            lemma_pow10_ge(31, d.scale as nat);
            lemma_pow10_31();
            let an = a as int;
            let pn = p as int;
            let f = an % pn;
            lemma_fundamental_div_mod(an, pn);
            assert(an / pn == 0 && f == an) by (nonlinear_arith)
                requires an < pn, an >= 0, an == pn * (an / pn) + f, 0 <= f < pn;
            assert(3600 * f < pn);
            assert((60 * f) / pn == 0) by (nonlinear_arith)
                requires 60 * f < pn, f >= 0;
            assert((3600 * f) / pn == 0) by (nonlinear_arith)
                requires 3600 * f < pn, f >= 0;
        }
        (0, 0, 0)
    } else {
        let mut q: u128 = 1;
        let mut i: u32 = 0;
        while i < d.scale
            invariant
                i <= d.scale <= 30,
                q == pow10(i as nat),
                q <= 1000000000000000000000000000000u128,
            decreases d.scale - i,
        {
            proof {
                lemma_pow10_ge((i + 1) as nat, 30);
                lemma_pow10_30();
                assert(pow10((i + 1) as nat) == 10 * pow10(i as nat));
            }
            q = q * 10;
            i = i + 1;
        }
        proof {
            lemma_pow10_pos(d.scale as nat);
            lemma_dms_bounds(a as int, p as int);
            lemma_pow10_30();
        }
        let f: u128 = a as u128 % q;
        let minutes: u128 = 60 * f / q;
        let seconds: u128 = 3600 * f / q - 60 * minutes;
        ((a as u128 / q) as u64, minutes as u64, seconds as u64)
    };
    assert(dms(d) == (deg as nat, min as nat, sec as nat));
    let shown: u64 = if deg > 255 { 255 } else { deg };
    push_decimal(out, shown);
    out.push('°');
    push_two_digits(out, min);
    out.push('′');
    push_two_digits(out, sec);
    out.push('″');
    assert(final(out)@ =~= old(out)@ + dms_text(d));
}

proof fn lemma_pow10_30()
    ensures
        pow10(30) == 1000000000000000000000000000000,
{
    reveal_with_fuel(pow10, 31);
}

proof fn lemma_pow10_31()
    ensures
        pow10(31) == 10000000000000000000000000000000,
{
    reveal_with_fuel(pow10, 32);
}

impl DecimalDegrees {
    /// The magnitude in sexagesimal degrees, minutes and seconds (ISO 6709
    /// Annex D), each truncated: `49°42′59″` for 49.716666.
    pub fn to_string(&self) -> (r: String)
        ensures
            r@ == dms_text(self.0),
    {
        let mut out: Vec<char> = Vec::new();
        push_dms(&mut out, self.0);
        assert(out@ =~= dms_text(self.0));
        string_of(out.as_slice())
    }
}

impl Coordinates {
    /// `LATN LONE` (or `W`), latitude and longitude in sexagesimal degrees.
    pub fn to_string(&self) -> (r: String)
        ensures
            r@ == coordinates_text(*self),
    {
        let mut out: Vec<char> = Vec::new();
        push_dms(&mut out, self.latitude.0);
        out.push('N');
        out.push(' ');
        push_dms(&mut out, self.longitude.0);
        out.push(if self.longitude.0.digits >= 0 { 'E' } else { 'W' });
        assert(out@ =~= coordinates_text(*self));
        string_of(out.as_slice())
    }
}

} // verus!
