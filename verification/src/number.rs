//! Unsigned numbers as text: reading digit strings in a base up to 16 and
//! writing them back, with the proof that the two are inverse.

use crate::text::string_of;
use vstd::prelude::*;

verus! {

/// The value of the digit `c` in base `radix`; letters of either case stand
/// for ten to fifteen.
pub open spec fn digit_value(c: char, radix: nat) -> Option<nat> {
    let v: int = if '0' <= c <= '9' {
        c as int - '0' as int
    } else if 'a' <= c <= 'f' {
        c as int - 'a' as int + 10
    } else if 'A' <= c <= 'F' {
        c as int - 'A' as int + 10
    } else {
        -1
    };
    if 0 <= v < radix {
        Some(v as nat)
    } else {
        None
    }
}

/// The number that the digit string `s` denotes in base `radix`, if every
/// character of it is a digit of that base. The empty string denotes zero.
pub open spec fn digits_value(s: Seq<char>, radix: nat) -> Option<nat>
    decreases s.len(),
{
    if s.len() == 0 {
        Some(0)
    } else {
        match (digits_value(s.drop_last(), radix), digit_value(s.last(), radix)) {
            (Some(high), Some(low)) => Some(high * radix + low),
            _ => None,
        }
    }
}

/// `s` without one leading plus sign.
pub open spec fn without_plus(s: Seq<char>) -> Seq<char> {
    if s.len() > 0 && s[0] == '+' {
        s.subrange(1, s.len() as int)
    } else {
        s
    }
}

/// What a token of digits reads as: at least one digit of base `radix` and
/// nothing else, denoting a number of at most `max`.
pub open spec fn parse_digits(s: Seq<char>, radix: nat, max: nat) -> Option<nat> {
    if s.len() == 0 {
        None
    } else {
        match digits_value(s, radix) {
            Some(v) => if v <= max {
                Some(v)
            } else {
                None
            },
            None => None,
        }
    }
}

/// What a field of a log reads as: as [`parse_digits`], but one plus sign
/// may stand before the digits.
pub open spec fn parse_unsigned(s: Seq<char>, radix: nat, max: nat) -> Option<nat> {
    parse_digits(without_plus(s), radix, max)
}

/// Executable form of [`digit_value`].
pub fn digit_of(c: char, radix: u32) -> (r: Option<u32>)
    requires
        2 <= radix <= 16,
    ensures
        match r {
            Some(v) => digit_value(c, radix as nat) == Some(v as nat),
            None => digit_value(c, radix as nat) is None,
        },
{
    let u: u32 = c as u32;
    let v: u32 = if '0' <= c && c <= '9' {
        u - ('0' as u32)
    } else if 'a' <= c && c <= 'f' {
        u - ('a' as u32) + 10
    } else if 'A' <= c && c <= 'F' {
        u - ('A' as u32) + 10
    } else {
        return None;
    };
    if v < radix {
        Some(v)
    } else {
        None
    }
}

/// A digit string that has a value gives each of its prefixes a value too, and
/// no greater one.
pub proof fn lemma_prefix_value(s: Seq<char>, k: int, radix: nat)
    requires
        0 <= k <= s.len(),
        radix >= 1,
    ensures
        digits_value(s, radix) matches Some(v) ==> (digits_value(s.take(k), radix) matches Some(p)
            && p <= v),
    decreases s.len() - k,
{
    if k == s.len() {
        assert(s.take(k) =~= s);
    } else {
        lemma_prefix_value(s.drop_last(), k, radix);
        assert(s.drop_last().take(k) =~= s.take(k));
        if let Some(high) = digits_value(s.drop_last(), radix) {
            assert(high * radix >= high) by (nonlinear_arith)
                requires
                    radix >= 1,
            ;
        }
    }
}

/// Reads the characters of `chars` from `start` up to `end` as digits of
/// base `radix` that denote a number of at most `max`. A sign is no digit.
pub fn parse_digit_string(chars: &Vec<char>, start: usize, end: usize, radix: u32, max: u64) -> (r:
    Option<u64>)
    requires
        start <= end <= chars.len(),
        2 <= radix <= 16,
    ensures
        match r {
            Some(v) => parse_digits(
                chars@.subrange(start as int, end as int),
                radix as nat,
                max as nat,
            ) == Some(v as nat),
            None => parse_digits(
                chars@.subrange(start as int, end as int),
                radix as nat,
                max as nat,
            ) is None,
        },
{
    let ghost body = chars@.subrange(start as int, end as int);
    if start == end {
        return None;
    }
    let mut i: usize = start;
    let mut acc: u64 = 0;
    assert(chars@.subrange(start as int, i as int) =~= Seq::<char>::empty());
    while i < end
        invariant
            start <= i <= end <= chars.len(),
            start < end,
            2 <= radix <= 16,
            body == chars@.subrange(start as int, end as int),
            digits_value(chars@.subrange(start as int, i as int), radix as nat) == Some(acc as nat),
            acc <= max,
        decreases end - i,
    {
        let ghost seen = chars@.subrange(start as int, i + 1);
        proof {
            assert(seen.drop_last() =~= chars@.subrange(start as int, i as int));
            assert(seen.last() == chars@[i as int]);
            assert(body.take(i + 1 - start) =~= seen);
            lemma_prefix_value(body, i + 1 - start, radix as nat);
        }
        let digit: u32 = match digit_of(chars[i], radix) {
            Some(d) => d,
            None => {
                return None;
            },
        };
        let next: Option<u64> = match acc.checked_mul(radix as u64) {
            Some(shifted) => shifted.checked_add(digit as u64),
            None => None,
        };
        match next {
            Some(n) => {
                if n > max {
                    return None;
                }
                acc = n;
            },
            None => {
                return None;
            },
        }
        i += 1;
    }
    Some(acc)
}

/// Reads the characters of `chars` from `start` up to `end` as a number in
/// base `radix` that is at most `max`, with or without a plus sign before
/// its digits.
pub fn parse_number(chars: &Vec<char>, start: usize, end: usize, radix: u32, max: u64) -> (r:
    Option<u64>)
    requires
        start <= end <= chars.len(),
        2 <= radix <= 16,
    ensures
        match r {
            Some(v) => parse_unsigned(
                chars@.subrange(start as int, end as int),
                radix as nat,
                max as nat,
            ) == Some(v as nat),
            None => parse_unsigned(
                chars@.subrange(start as int, end as int),
                radix as nat,
                max as nat,
            ) is None,
        },
{
    let ghost token = chars@.subrange(start as int, end as int);
    let first: usize = if start < end && chars[start] == '+' {
        start + 1
    } else {
        start
    };
    assert(chars@.subrange(first as int, end as int) =~= without_plus(token));
    parse_digit_string(chars, first, end, radix, max)
}

/// The character that writes the digit `d`, with lower-case letters for ten
/// to fifteen.
pub open spec fn digit_char(d: nat) -> char {
    if d < 10 {
        (('0' as u8) + d) as u8 as char
    } else {
        (('a' as u8) + (d - 10)) as u8 as char
    }
}

/// The digits of `n` in base `radix`, most significant first, without
/// leading zeros; zero is written as one digit.
pub open spec fn digits_of(n: nat, radix: nat) -> Seq<char>
    decreases n,
    via digits_of_terminates
{
    if radix < 2 || n < radix {
        seq![digit_char(n)]
    } else {
        digits_of(n / radix, radix).push(digit_char(n % radix))
    }
}

#[via_fn]
proof fn digits_of_terminates(n: nat, radix: nat) {
    if radix >= 2 && n >= radix {
        lemma_quotient_smaller(n, radix);
    }
}

/// Dividing a positive number by a base of two or more makes it smaller.
pub proof fn lemma_quotient_smaller(n: nat, radix: nat)
    requires
        radix >= 2,
        n > 0,
    ensures
        n / radix < n,
{
    assert(n / radix < n) by (nonlinear_arith)
        requires
            radix >= 2,
            n > 0,
    ;
}

/// Executable form of [`digit_char`].
pub fn char_of_digit(d: u32) -> (c: char)
    requires
        d < 16,
    ensures
        c == digit_char(d as nat),
{
    if d < 10 {
        (('0' as u8) + (d as u8)) as char
    } else {
        (('a' as u8) + ((d - 10) as u8)) as char
    }
}

/// Appends the digits of `n` in base `radix` to `out`.
pub fn push_digits(n: u64, radix: u32, out: &mut Vec<char>)
    requires
        2 <= radix <= 16,
    ensures
        final(out)@ == old(out)@ + digits_of(n as nat, radix as nat),
    decreases n,
{
    let base: u64 = radix as u64;
    if n < base {
        out.push(char_of_digit(n as u32));
    } else {
        proof {
            lemma_quotient_smaller(n as nat, radix as nat);
        }
        push_digits(n / base, radix, out);
        out.push(char_of_digit((n % base) as u32));
    }
}

/// Every digit reads back as the value it was written for.
pub proof fn lemma_digit_char_value(d: nat, radix: nat)
    requires
        d < radix <= 16,
    ensures
        digit_value(digit_char(d), radix) == Some(d),
{
}

/// Reading what was written gives the number back.
pub proof fn lemma_digits_roundtrip(n: nat, radix: nat)
    requires
        2 <= radix <= 16,
    ensures
        digits_of(n, radix).len() > 0,
        digits_value(digits_of(n, radix), radix) == Some(n),
        forall|i: int|
            0 <= i < digits_of(n, radix).len() ==> digit_value(
                #[trigger] digits_of(n, radix)[i],
                radix,
            ) is Some,
    decreases n,
{
    let s = digits_of(n, radix);
    if n < radix {
        lemma_digit_char_value(n, radix);
        assert(s =~= seq![digit_char(n)]);
        assert(s.drop_last() =~= Seq::<char>::empty());
        assert(digits_value(s.drop_last(), radix) == Some(0nat));
        assert(s.last() == digit_char(n));
        assert(digits_value(s, radix) == Some(0 * radix + n));
    } else {
        lemma_digits_roundtrip(n / radix, radix);
        lemma_digit_char_value(n % radix, radix);
        assert(s.drop_last() =~= digits_of(n / radix, radix));
        assert(s.last() == digit_char(n % radix));
        assert((n / radix) * radix + n % radix == n) by (nonlinear_arith)
            requires
                radix > 0,
        ;
        assert(digits_value(s, radix) == Some((n / radix) * radix + n % radix));
    }
}

/// How a code is written in hexadecimal: `0x`, then its lower-case digits.
pub open spec fn hex_text(code: u32) -> Seq<char> {
    seq!['0', 'x'] + digits_of(code as nat, 16)
}

/// How a number is written in decimal.
pub open spec fn decimal_text(n: u32) -> Seq<char> {
    digits_of(n as nat, 10)
}

/// Writes `code` in hexadecimal, as [`hex_text`] says.
pub fn format_hex(code: u32) -> (s: String)
    ensures
        s@ == hex_text(code),
{
    let mut chars: Vec<char> = Vec::new();
    chars.push('0');
    chars.push('x');
    assert(chars@ =~= seq!['0', 'x']);
    push_digits(code as u64, 16, &mut chars);
    let s = string_of(&chars, 0, chars.len());
    assert(chars@.subrange(0, chars.len() as int) =~= chars@);
    s
}

/// Writes `n` in decimal, as [`decimal_text`] says.
pub fn format_decimal(n: u32) -> (s: String)
    ensures
        s@ == decimal_text(n),
{
    let mut chars: Vec<char> = Vec::new();
    push_digits(n as u64, 10, &mut chars);
    let s = string_of(&chars, 0, chars.len());
    assert(chars@.subrange(0, chars.len() as int) =~= chars@);
    s
}

} // verus!
