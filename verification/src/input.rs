//! Codes in free text: a line that someone pasted may hold a code in
//! hexadecimal somewhere, or be a code as a whole.

use crate::decoder::anchor::{parse_code, parse_error_code};
use crate::decoder::registry::ErrorDatabase;
use crate::decoder::{decode_error, resolve, slice_text};
use crate::number::{digit_of, digit_value, parse_digit_string, parse_digits};
use crate::output::DecodedError;
use crate::scanner::error_view;
use crate::text::{chars_of, string_of, trim, trim_bounds};
use vstd::prelude::*;

verus! {

/// Whether `0x` stands at position `i` of `s`.
pub open spec fn marker_at(s: Seq<char>, i: int) -> bool {
    0 <= i && i + 1 < s.len() && s[i] == '0' && s[i + 1] == 'x'
}

/// The first position of `s` at which `0x` stands.
pub open spec fn first_marker(s: Seq<char>) -> Option<int>
    decreases s.len(),
{
    if s.len() < 2 {
        None
    } else if marker_at(s, 0) {
        Some(0)
    } else {
        match first_marker(s.drop_first()) {
            Some(i) => Some(i + 1),
            None => None,
        }
    }
}

/// How many hexadecimal digits `s` begins with.
pub open spec fn hex_run_len(s: Seq<char>) -> nat
    decreases s.len(),
{
    if s.len() > 0 && digit_value(s.first(), 16) is Some {
        1 + hex_run_len(s.drop_first())
    } else {
        0
    }
}

/// The hexadecimal digits that follow the first `0x` of `line`, as many as
/// there are; none where the line has no `0x` or no digit follows the first.
pub open spec fn hex_in(line: Seq<char>) -> Option<Seq<char>> {
    match first_marker(line) {
        Some(i) => {
            let rest = line.subrange(i + 2, line.len() as int);
            if hex_run_len(rest) > 0 {
                Some(rest.take(hex_run_len(rest) as int))
            } else {
                None
            }
        },
        None => None,
    }
}

/// The position of the first `0x` in `chars`.
fn find_marker(chars: &Vec<char>) -> (r: Option<usize>)
    ensures
        match r {
            Some(i) => first_marker(chars@) == Some(i as int) && i + 2 <= chars.len(),
            None => first_marker(chars@) is None,
        },
{
    let n: usize = chars.len();
    let mut i: usize = 0;
    assert(chars@.subrange(0, n as int) =~= chars@);
    while n - i > 1
        invariant
            i <= n == chars.len(),
            first_marker(chars@) == match first_marker(chars@.subrange(i as int, n as int)) {
                Some(k) => Some(k + i),
                None => None,
            },
        decreases n - i,
    {
        if chars[i] == '0' && chars[i + 1] == 'x' {
            return Some(i);
        }
        assert(chars@.subrange(i as int, n as int).drop_first() =~= chars@.subrange(i + 1, n as int));
        i += 1;
    }
    None
}

/// How many hexadecimal digits stand in `chars` from `start` on.
fn count_hex_digits(chars: &Vec<char>, start: usize) -> (count: usize)
    requires
        start <= chars.len(),
    ensures
        count == hex_run_len(chars@.subrange(start as int, chars.len() as int)),
        start + count <= chars.len(),
{
    let n: usize = chars.len();
    let mut i: usize = start;
    while i < n && digit_of(chars[i], 16).is_some()
        invariant
            start <= i <= n == chars.len(),
            hex_run_len(chars@.subrange(start as int, n as int)) == (i - start) + hex_run_len(
                chars@.subrange(i as int, n as int),
            ),
        decreases n - i,
    {
        assert(chars@.subrange(i as int, n as int).drop_first() =~= chars@.subrange(i + 1, n as int));
        i += 1;
    }
    i - start
}

pub fn extract_hex_error(line: &str) -> (r: Option<String>)
    ensures
        match r {
            Some(digits) => hex_in(line@) == Some(digits@),
            None => hex_in(line@) is None,
        },
{
    let chars = chars_of(line);
    match find_marker(&chars) {
        Some(pos) => {
            let start: usize = pos + 2;
            let count = count_hex_digits(&chars, start);
            if count > 0 {
                let ghost rest = chars@.subrange(start as int, chars.len() as int);
                assert(rest.take(count as int) =~= chars@.subrange(
                    start as int,
                    start + count,
                ));
                Some(string_of(&chars, start, start + count))
            } else {
                None
            }
        },
        None => None,
    }
}

/// The code that a line of input asks about. A blank line asks nothing. A
/// line that holds hexadecimal digits after a `0x` asks about those, if 32
/// bits hold them; any other line is read as a code token.
pub open spec fn line_code(line: Seq<char>) -> Option<u32> {
    if trim(line).len() == 0 {
        None
    } else {
        match hex_in(line) {
            Some(digits) => match parse_digits(digits, 16, u32::MAX as nat) {
                Some(v) => Some(v as u32),
                None => None,
            },
            None => parse_code(line),
        }
    }
}

/// Decodes what a line of input asks about, if it asks anything.
pub fn decode_line(db: &ErrorDatabase, line: &str, program_id: Option<&str>) -> (r: Option<
    DecodedError,
>)
    ensures
        error_view(r) == match line_code(line@) {
            Some(code) => Some(resolve(db@, code, slice_text(program_id))),
            None => None,
        },
{
    let chars = chars_of(line);
    let (lo, hi) = trim_bounds(&chars);
    if lo == hi {
        return None;
    }
    let code: Option<u32> = match extract_hex_error(line) {
        Some(digits) => {
            let hex = chars_of(digits.as_str());
            assert(hex@.subrange(0, hex.len() as int) =~= hex@);
            match parse_digit_string(&hex, 0, hex.len(), 16, u32::MAX as u64) {
                Some(v) => Some(v as u32),
                None => None,
            }
        },
        None => match parse_error_code(line) {
            Ok(code) => Some(code),
            Err(_) => None,
        },
    };
    match code {
        Some(code) => Some(decode_error(db, code, program_id)),
        None => None,
    }
}

} // verus!
