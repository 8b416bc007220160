//! Character-level helpers shared by the decoders.
use vstd::prelude::*;

verus! {

/// The characters of `s`, in order.
///
/// Relies on `str::chars` collected by `Iterator::collect`: one entry per character.
#[verifier::external_body]
pub(crate) fn chars_of(s: &str) -> (r: Vec<char>)
    ensures
        r@ == s@,
{
    s.chars().collect()
}

/// A string made of the given characters.
///
/// Relies on `Iterator::collect` into a `String`: the characters are kept in order.
#[verifier::external_body]
pub(crate) fn string_of(cs: &[char]) -> (r: String)
    ensures
        r@ == cs@,
{
    cs.iter().collect()
}

/// The characters of `s` before its first `sep`; all of `s` where `sep` does not occur.
pub open spec fn before_first(s: Seq<char>, sep: char) -> Seq<char>
    decreases s.len(),
{
    if s.len() == 0 {
        s
    } else if s[0] == sep {
        Seq::empty()
    } else {
        seq![s[0]] + before_first(s.drop_first(), sep)
    }
}

/// Index of the first `sep` in `cs[from..to]`, or `to` where there is none.
pub(crate) fn find_first(cs: &Vec<char>, from: usize, to: usize, sep: char) -> (r: usize)
    requires
        from <= to <= cs@.len(),
    ensures
        from <= r <= to,
        cs@.subrange(from as int, r as int) == before_first(cs@.subrange(from as int, to as int), sep),
{
    let mut i: usize = from;
    while i < to && cs[i] != sep
        invariant
            from <= i <= to <= cs@.len(),
            forall|j: int| from <= j < i ==> cs@[j] != sep,
        decreases to - i,
    {
        i = i + 1;
    }
    proof {
        let t = cs@.subrange(from as int, to as int);
        lemma_before_first(t, sep, i - from);
        assert(t.subrange(0, i - from) =~= cs@.subrange(from as int, i as int));
    }
    i
}

/// The characters of `s` before its first `a` or `b`; all of `s` where
/// neither occurs.
pub open spec fn before_either(s: Seq<char>, a: char, b: char) -> Seq<char>
    decreases s.len(),
{
    if s.len() == 0 {
        s
    } else if s[0] == a || s[0] == b {
        Seq::empty()
    } else {
        seq![s[0]] + before_either(s.drop_first(), a, b)
    }
}

proof fn lemma_before_either(s: Seq<char>, a: char, b: char, i: int)
    requires
        0 <= i <= s.len(),
        forall|j: int| 0 <= j < i ==> s[j] != a && s[j] != b,
        i < s.len() ==> s[i] == a || s[i] == b,
    ensures
        s.subrange(0, i) == before_either(s, a, b),
    decreases s.len(),
{
    if s.len() > 0 && i > 0 {
        lemma_before_either(s.drop_first(), a, b, i - 1);
        assert(s.subrange(0, i) =~= seq![s[0]] + s.drop_first().subrange(0, i - 1));
    } else {
        assert(s.subrange(0, i) =~= Seq::<char>::empty());
    }
}

/// Index of the first `a` or `b` in `cs[from..to]`, or `to` where there is none.
pub(crate) fn find_either(cs: &Vec<char>, from: usize, to: usize, a: char, b: char) -> (r: usize)
    requires
        from <= to <= cs@.len(),
    ensures
        from <= r <= to,
        cs@.subrange(from as int, r as int) == before_either(cs@.subrange(from as int, to as int), a, b),
{
    let mut i: usize = from;
    while i < to && cs[i] != a && cs[i] != b
        invariant
            from <= i <= to <= cs@.len(),
            forall|j: int| from <= j < i ==> cs@[j] != a && cs@[j] != b,
        decreases to - i,
    {
        i = i + 1;
    }
    proof {
        let t = cs@.subrange(from as int, to as int);
        lemma_before_either(t, a, b, i - from);
        assert(t.subrange(0, i - from) =~= cs@.subrange(from as int, i as int));
    }
    i
}

/// Appends `cs[from..to]` to `out`.
pub(crate) fn push_range(out: &mut Vec<char>, cs: &Vec<char>, from: usize, to: usize)
    requires
        from <= to <= cs@.len(),
    ensures
        final(out)@ == old(out)@ + cs@.subrange(from as int, to as int),
{
    let mut i: usize = from;
    while i < to
        invariant
            from <= i <= to <= cs@.len(),
            out@ == old(out)@ + cs@.subrange(from as int, i as int),
        decreases to - i,
    {
        out.push(cs[i]);
        i = i + 1;
        assert(out@ =~= old(out)@ + cs@.subrange(from as int, i as int));
    }
}

/// Where the first `sep` stands at `i` (or nowhere, with `i` the length),
/// `before_first` is the prefix of length `i`.
pub proof fn lemma_before_first(s: Seq<char>, sep: char, i: int)
    requires
        0 <= i <= s.len(),
        forall|j: int| 0 <= j < i ==> s[j] != sep,
        i < s.len() ==> s[i] == sep,
    ensures
        s.subrange(0, i) == before_first(s, sep),
    decreases s.len(),
{
    if s.len() > 0 && i > 0 {
        lemma_before_first(s.drop_first(), sep, i - 1);
        assert(s.subrange(0, i) =~= seq![s[0]] + s.drop_first().subrange(0, i - 1));
    } else {
        assert(s.subrange(0, i) =~= Seq::<char>::empty());
    }
}

/// Decimal digits of `n`, most significant first, without leading zeros
/// (`0` is written as one digit).
pub open spec fn decimal_text(n: nat) -> Seq<char>
    decreases n,
{
    if n < 10 {
        seq![digit_char(n)]
    } else {
        decimal_text(n / 10) + seq![digit_char(n % 10)]
    }
}

/// The character of a decimal digit.
pub open spec fn digit_char(d: nat) -> char {
    if d == 0 { '0' }
    else if d == 1 { '1' }
    else if d == 2 { '2' }
    else if d == 3 { '3' }
    else if d == 4 { '4' }
    else if d == 5 { '5' }
    else if d == 6 { '6' }
    else if d == 7 { '7' }
    else if d == 8 { '8' }
    else { '9' }
}

/// The value of a decimal digit character, if it is one.
pub open spec fn digit_value(c: char) -> Option<nat> {
    if c == '0' { Some(0) }
    else if c == '1' { Some(1) }
    else if c == '2' { Some(2) }
    else if c == '3' { Some(3) }
    else if c == '4' { Some(4) }
    else if c == '5' { Some(5) }
    else if c == '6' { Some(6) }
    else if c == '7' { Some(7) }
    else if c == '8' { Some(8) }
    else if c == '9' { Some(9) }
    else { None }
}

pub(crate) fn digit_to_char(d: u8) -> (c: char)
    requires
        d < 10,
    ensures
        c == digit_char(d as nat),
{
    match d {
        0 => '0',
        1 => '1',
        2 => '2',
        3 => '3',
        4 => '4',
        5 => '5',
        6 => '6',
        7 => '7',
        8 => '8',
        _ => '9',
    }
}

pub(crate) fn char_to_digit(c: char) -> (r: Option<u8>)
    ensures
        r matches Some(d) ==> digit_value(c) == Some(d as nat),
        r is None ==> digit_value(c) is None,
{
    match c {
        '0' => Some(0),
        '1' => Some(1),
        '2' => Some(2),
        '3' => Some(3),
        '4' => Some(4),
        '5' => Some(5),
        '6' => Some(6),
        '7' => Some(7),
        '8' => Some(8),
        '9' => Some(9),
        _ => None,
    }
}

/// Appends the decimal digits of `n` to `out`.
pub(crate) fn push_decimal(out: &mut Vec<char>, n: u64)
    ensures
        final(out)@ == old(out)@ + decimal_text(n as nat),
    decreases n,
{
    if n < 10 {
        out.push(digit_to_char(n as u8));
    } else {
        push_decimal(out, n / 10);
        out.push(digit_to_char((n % 10) as u8));
    }
}

} // verus!
