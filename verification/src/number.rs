//! Numerals: what a run of characters is worth as a number, and the parsers
//! that compute it within the bounds of a machine integer.

use crate::text::{first_of, lemma_first_of_bounds, position_of};
use vstd::prelude::*;

verus! {

/// The worth of `c` as a digit in the given radix (at most 36), or `None`
/// where it is no digit of that radix. Letters count from ten, in either case.
pub open spec fn digit_in(c: char, radix: nat) -> Option<nat> {
    let v: int = if '0' <= c && c <= '9' {
        c as u32 - '0' as u32
    } else if 'a' <= c && c <= 'z' {
        c as u32 - 'a' as u32 + 10
    } else if 'A' <= c && c <= 'Z' {
        c as u32 - 'A' as u32 + 10
    } else {
        -1
    };
    if 0 <= v < radix {
        Some(v as nat)
    } else {
        None
    }
}

/// Whether `s` is a numeral of the given radix: one digit or more, and
/// nothing else.
pub open spec fn is_numeral(s: Seq<char>, radix: nat) -> bool {
    &&& s.len() > 0
    &&& forall|i: int| 0 <= i < s.len() ==> (#[trigger] digit_in(s[i], radix)) is Some
}

/// What the digits of `s` are worth in the given radix, the first digit
/// weighing most.
pub open spec fn numeral_value(s: Seq<char>, radix: nat) -> nat
    decreases s.len(),
{
    if s.len() == 0 {
        0
    } else {
        numeral_value(s.drop_last(), radix) * radix + digit_in(s.last(), radix).unwrap_or(0)
    }
}

/// `s` without a plus sign at its head.
pub open spec fn unsigned_body(s: Seq<char>) -> Seq<char> {
    if s.len() > 0 && s[0] == '+' {
        s.skip(1)
    } else {
        s
    }
}

/// What `s` is worth as an unsigned numeral with an optional plus sign, or
/// `None` where it is none.
pub open spec fn unsigned_value(s: Seq<char>, radix: nat) -> Option<nat> {
    if is_numeral(unsigned_body(s), radix) {
        Some(numeral_value(unsigned_body(s), radix))
    } else {
        None
    }
}

/// What `s` is worth as a decimal numeral with an optional sign, or `None`
/// where it is none.
pub open spec fn signed_value(s: Seq<char>) -> Option<int> {
    if s.len() > 0 && s[0] == '-' {
        if is_numeral(s.skip(1), 10) {
            Some(-(numeral_value(s.skip(1), 10) as int))
        } else {
            None
        }
    } else {
        match unsigned_value(s, 10) {
            Some(v) => Some(v as int),
            None => None,
        }
    }
}

/// `v` where it is at most `max`, else `None`.
pub open spec fn within(v: Option<nat>, max: nat) -> Option<nat> {
    match v {
        Some(n) => if n <= max {
            Some(n)
        } else {
            None
        },
        None => None,
    }
}

/// A numeral is worth at least as much as any of its heads.
pub proof fn lemma_value_grows(s: Seq<char>, radix: nat, k: int)
    requires
        0 <= k <= s.len(),
        radix >= 1,
    ensures
        numeral_value(s.take(k), radix) <= numeral_value(s, radix),
    decreases s.len() - k,
{
    if k == s.len() {
        assert(s.take(k) == s);
    } else {
        lemma_value_grows(s.drop_last(), radix, k);
        assert(s.drop_last().take(k) == s.take(k));
        let head = numeral_value(s.drop_last(), radix);
        assert(head * radix >= head) by (nonlinear_arith)
            requires
                radix >= 1,
                head >= 0,
        ;
    }
}

/// The worth of `c` as a digit in the given radix.
pub fn digit_of(c: char, radix: u32) -> (r: Option<u32>)
    requires
        radix <= 36,
    ensures
        match r {
            Some(d) => digit_in(c, radix as nat) == Some(d as nat) && d < radix,
            None => digit_in(c, radix as nat) is None,
        },
{
    let v: u32 = if '0' <= c && c <= '9' {
        c as u32 - '0' as u32
    } else if 'a' <= c && c <= 'z' {
        c as u32 - 'a' as u32 + 10
    } else if 'A' <= c && c <= 'Z' {
        c as u32 - 'A' as u32 + 10
    } else {
        return None;
    };
    if v < radix {
        Some(v)
    } else {
        None
    }
}

/// The worth of the characters of `text` from `from` up to `to` as a numeral
/// of the given radix, where they are one and it is at most `max`.
pub fn parse_numeral(text: &[char], from: usize, to: usize, radix: u32, max: u64) -> (r: Option<
    u64,
>)
    requires
        from <= to <= text.len(),
        1 <= radix <= 36,
    ensures
        r is Some <==> is_numeral(text@.subrange(from as int, to as int), radix as nat)
            && numeral_value(text@.subrange(from as int, to as int), radix as nat) <= max,
        r matches Some(v) ==> v == numeral_value(
            text@.subrange(from as int, to as int),
            radix as nat,
        ),
{
    let ghost s = text@.subrange(from as int, to as int);
    if from == to {
        return None;
    }
    let mut acc: u64 = 0;
    let mut i: usize = from;
    while i < to
        invariant
            from <= i <= to <= text.len(),
            1 <= radix <= 36,
            s == text@.subrange(from as int, to as int),
            acc == numeral_value(s.take(i - from), radix as nat),
            acc <= max,
            forall|j: int| 0 <= j < i - from ==> (#[trigger] digit_in(s[j], radix as nat)) is Some,
        decreases to - i,
    {
        let c = text[i];
        assert(s[i - from] == c);
        assert(s.take(i - from + 1).drop_last() == s.take(i - from));
        match digit_of(c, radix) {
            None => {
                return None;
            },
            Some(d) => {
                assert(acc * radix <= 0xffff_ffff_ffff_ffff * 36) by (nonlinear_arith)
                    requires
                        acc <= 0xffff_ffff_ffff_ffff,
                        radix <= 36,
                ;
                let next: u128 = acc as u128 * radix as u128 + d as u128;
                if next > max as u128 {
                    proof {
                        lemma_value_grows(s, radix as nat, i - from + 1);
                    }
                    return None;
                }
                acc = next as u64;
            },
        }
        i += 1;
    }
    assert(s.take(to - from) == s);
    Some(acc)
}

/// Reads `text` as an unsigned numeral of the given radix with an optional
/// plus sign. `None` where it is none or is worth more than `max`.
pub fn parse_unsigned(text: &[char], radix: u32, max: u64) -> (r: Option<u64>)
    requires
        1 <= radix <= 36,
    ensures
        match within(unsigned_value(text@, radix as nat), max as nat) {
            Some(v) => r == Some(v as u64),
            None => r is None,
        },
{
    let from: usize = if text.len() > 0 && text[0] == '+' {
        1
    } else {
        0
    };
    assert(text@.subrange(from as int, text.len() as int) == unsigned_body(text@));
    parse_numeral(text, from, text.len(), radix, max)
}

/// Reads `text` as a decimal `u64`.
pub fn parse_u64(text: &[char]) -> (r: Option<u64>)
    ensures
        match within(unsigned_value(text@, 10), u64::MAX as nat) {
            Some(v) => r == Some(v as u64),
            None => r is None,
        },
{
    parse_unsigned(text, 10, u64::MAX)
}

/// Reads `text` as a decimal `usize`.
pub fn parse_usize(text: &[char]) -> (r: Option<usize>)
    ensures
        match within(unsigned_value(text@, 10), usize::MAX as nat) {
            Some(v) => r == Some(v as usize),
            None => r is None,
        },
{
    match parse_unsigned(text, 10, usize::MAX as u64) {
        Some(v) => Some(v as usize),
        None => None,
    }
}

/// Reads `text` as a hexadecimal `u16`.
pub fn parse_hex_u16(text: &[char]) -> (r: Option<u16>)
    ensures
        match within(unsigned_value(text@, 16), u16::MAX as nat) {
            Some(v) => r == Some(v as u16),
            None => r is None,
        },
{
    match parse_unsigned(text, 16, 0xffff) {
        Some(v) => Some(v as u16),
        None => None,
    }
}

/// What `text` is worth as a decimal `i64`, or `None` where it is no signed
/// decimal numeral or lies outside the type's range.
pub open spec fn i64_value(text: Seq<char>) -> Option<i64> {
    match signed_value(text) {
        Some(v) => if i64::MIN <= v <= i64::MAX {
            Some(v as i64)
        } else {
            None
        },
        None => None,
    }
}

/// Reads `text` as a decimal `i64`.
pub fn parse_i64(text: &[char]) -> (r: Option<i64>)
    ensures
        r == i64_value(text@),
{
    if text.len() > 0 && text[0] == '-' {
        match parse_numeral(text, 1, text.len(), 10, 0x8000_0000_0000_0000) {
            Some(v) => {
                if v == 0x8000_0000_0000_0000 {
                    Some(i64::MIN)
                } else {
                    Some(-(v as i64))
                }
            },
            None => None,
        }
    } else {
        match parse_unsigned(text, 10, 0x7fff_ffff_ffff_ffff) {
            Some(v) => Some(v as i64),
            None => None,
        }
    }
}

/// Whether every character of `s` is a decimal digit; `s` may be empty.
pub open spec fn only_digits(s: Seq<char>) -> bool {
    forall|i: int| 0 <= i < s.len() ==> (#[trigger] digit_in(s[i], 10)) is Some
}

/// The first `places` characters of `frac`, with zeros where it is shorter.
pub open spec fn padded(frac: Seq<char>, places: nat) -> Seq<char> {
    Seq::new(
        places,
        |i: int|
            if i < frac.len() {
                frac[i]
            } else {
                '0'
            },
    )
}

/// What `s` is worth, counted in units of `10^-places`, as a decimal number
/// with an optional plus sign and an optional fraction after a point: the
/// digits before the point followed by the first `places` digits after it.
/// Further digits of the fraction are cut off. `None` where `s` holds
/// anything but digits around at most one point, or no digit at all.
pub open spec fn fixed_point_value(s: Seq<char>, places: nat) -> Option<nat> {
    let body = unsigned_body(s);
    let dot = first_of(body, '.', 0);
    let whole = body.take(dot);
    let frac = if dot < body.len() {
        body.skip(dot + 1)
    } else {
        Seq::empty()
    };
    if whole.len() + frac.len() > 0 && only_digits(whole) && only_digits(frac) {
        Some(numeral_value(whole + padded(frac, places), 10))
    } else {
        None
    }
}

/// Whether the characters of `text` from `from` up to `to` are all digits.
pub fn digits_between(text: &[char], from: usize, to: usize) -> (r: bool)
    requires
        from <= to <= text.len(),
    ensures
        r == only_digits(text@.subrange(from as int, to as int)),
{
    let ghost s = text@.subrange(from as int, to as int);
    let mut i: usize = from;
    while i < to
        invariant
            from <= i <= to <= text.len(),
            s == text@.subrange(from as int, to as int),
            forall|j: int| 0 <= j < i - from ==> (#[trigger] digit_in(s[j], 10)) is Some,
        decreases to - i,
    {
        assert(s[i - from] == text@[i as int]);
        if digit_of(text[i], 10).is_none() {
            return false;
        }
        i += 1;
    }
    true
}

/// The characters of `text` from `from` up to `dot`, followed by the first
/// `places` characters from `frac` on, with zeros where `text` ends sooner.
fn fixed_digits(text: &[char], from: usize, dot: usize, frac: usize, places: usize) -> (r: Vec<
    char,
>)
    requires
        from <= dot <= frac <= text.len(),
    ensures
        r@ == text@.subrange(from as int, dot as int) + padded(
            text@.skip(frac as int),
            places as nat,
        ),
{
    let ghost whole = text@.subrange(from as int, dot as int);
    let ghost pad = padded(text@.skip(frac as int), places as nat);
    let mut r: Vec<char> = Vec::new();
    let mut i: usize = from;
    while i < dot
        invariant
            from <= i <= dot <= text.len(),
            whole == text@.subrange(from as int, dot as int),
            r@ == whole.take(i - from),
        decreases dot - i,
    {
        r.push(text[i]);
        i += 1;
    }
    let mut j: usize = 0;
    while j < places
        invariant
            j <= places,
            frac <= text.len(),
            pad == padded(text@.skip(frac as int), places as nat),
            r@ == whole + pad.take(j as int),
        decreases places - j,
    {
        let c: char = if j < text.len() - frac {
            text[frac + j]
        } else {
            '0'
        };
        r.push(c);
        j += 1;
    }
    r
}

/// Reads `text` as a decimal number with an optional fraction and gives it
/// in millionths, the rest of the fraction cut off.
pub fn parse_millionths(text: &[char]) -> (r: Option<u64>)
    ensures
        match within(fixed_point_value(text@, 6), u64::MAX as nat) {
            Some(v) => r == Some(v as u64),
            None => r is None,
        },
{
    let start: usize = if text.len() > 0 && text[0] == '+' {
        1
    } else {
        0
    };
    let ghost body = unsigned_body(text@);
    let dot_at: usize = position_of(text, '.', start);
    // the same point, counted within the body
    let ghost dot = first_of(body, '.', 0);
    proof {
        lemma_first_of_bounds(text@, '.', start as int);
        lemma_first_of_bounds(body, '.', 0);
        if dot > dot_at - start {
            assert(body[dot_at - start] == text@[dot_at as int]);
        }
    }
    let ghost whole = body.take(dot);
    let ghost frac = if dot < body.len() {
        body.skip(dot + 1)
    } else {
        Seq::empty()
    };
    let frac_at: usize = if dot_at < text.len() {
        dot_at + 1
    } else {
        dot_at
    };
    assert(frac =~= text@.subrange(frac_at as int, text.len() as int));
    assert(whole =~= text@.subrange(start as int, dot_at as int));
    if dot_at - start + (text.len() - frac_at) == 0 {
        return None;
    }
    if !digits_between(text, start, dot_at) || !digits_between(text, frac_at, text.len()) {
        return None;
    }
    let digits = fixed_digits(text, start, dot_at, frac_at, 6);
    assert(digits@.subrange(0, digits.len() as int) == digits@);
    assert forall|n: int| 0 <= n < digits@.len() implies (#[trigger] digit_in(
        digits@[n],
        10,
    )) is Some by {
        if n >= whole.len() && n - whole.len() < frac.len() {
            assert(digits@[n] == frac[n - whole.len()]);
        }
    }
    parse_numeral(digits.as_slice(), 0, digits.len(), 10, u64::MAX)
}

} // verus!
