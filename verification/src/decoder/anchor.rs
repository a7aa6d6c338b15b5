//! Code tokens and the convention for program-defined codes.

use crate::number::{decimal_text, digits_of, format_decimal, hex_text};
use crate::number::{parse_digit_string, parse_digits};
use crate::number::{digits_value, lemma_digits_roundtrip, lemma_prefix_value};
use crate::output::{DecodedError, DecodedErrorView};
use crate::text::{chars_of, is_whitespace, trim, trim_bounds};
use vstd::prelude::*;
use vstd::string::StringExecFns;

verus! {

/// Codes below this number are reserved; a code at or above it is the
/// program's own, and its distance from here is the index of the variant.
pub const ANCHOR_ERROR_OFFSET: u32 = 6000;

pub fn is_anchor_custom_error(code: u32) -> (b: bool)
    ensures
        b == (code >= ANCHOR_ERROR_OFFSET),
{
    code >= ANCHOR_ERROR_OFFSET
}

/// The name given to a program-defined code of which nothing else is known.
pub open spec fn custom_name(index: u32) -> Seq<char> {
    "CustomError["@ + decimal_text(index) + "]"@
}

/// The message given to a program-defined code of which nothing else is known.
pub open spec fn custom_message(index: u32) -> Seq<char> {
    "Custom program error at variant index "@ + decimal_text(index)
}

/// The record of a program-defined code, made from the code alone.
pub open spec fn anchor_custom(code: u32) -> DecodedErrorView
    recommends
        code >= ANCHOR_ERROR_OFFSET,
{
    let index = (code - ANCHOR_ERROR_OFFSET) as u32;
    DecodedErrorView::new(code).with_name(custom_name(index)).with_message(custom_message(index))
}

pub fn decode_anchor_custom(code: u32) -> (r: DecodedError)
    requires
        code >= ANCHOR_ERROR_OFFSET,
    ensures
        r@ == anchor_custom(code),
{
    let variant_index: u32 = code - ANCHOR_ERROR_OFFSET;
    let index_text = format_decimal(variant_index);
    let mut name = String::from_str("CustomError[");
    name.append(index_text.as_str());
    name.append("]");
    let mut message = String::from_str("Custom program error at variant index ");
    message.append(index_text.as_str());
    DecodedError::new(code).with_name(name).with_message(message)
}

/// Why a token is no code.
#[derive(Debug, Clone, Copy, PartialEq, Eq, Structural)]
pub enum ParseCodeError {
    /// The token is empty, holds something that is no digit of its base, or
    /// denotes a number that 32 bits cannot hold.
    MalformedCode,
}

/// Whether `s` begins with `0x`.
pub open spec fn has_hex_prefix(s: Seq<char>) -> bool {
    s.len() >= 2 && s[0] == '0' && s[1] == 'x'
}

/// The code that a token denotes. With the whitespace around it set aside,
/// the token is `0x` and then one or more hexadecimal digits, or else one or
/// more decimal digits, and the digits denote a number that 32 bits hold.
/// Any other token, one with a sign among them, denotes no code.
pub open spec fn parse_code(token: Seq<char>) -> Option<u32> {
    let t = trim(token);
    let value = if has_hex_prefix(t) {
        parse_digits(t.subrange(2, t.len() as int), 16, u32::MAX as nat)
    } else {
        parse_digits(t, 10, u32::MAX as nat)
    };
    match value {
        Some(v) => Some(v as u32),
        None => None,
    }
}

pub fn parse_error_code(input: &str) -> (r: Result<u32, ParseCodeError>)
    ensures
        r == match parse_code(input@) {
            Some(code) => Ok::<u32, ParseCodeError>(code),
            None => Err(ParseCodeError::MalformedCode),
        },
{
    let chars = chars_of(input);
    let (lo, hi) = trim_bounds(&chars);
    let ghost t = chars@.subrange(lo as int, hi as int);
    let value = if hi - lo >= 2 && chars[lo] == '0' && chars[lo + 1] == 'x' {
        assert(t.subrange(2, t.len() as int) =~= chars@.subrange(lo + 2, hi as int));
        parse_digit_string(&chars, lo + 2, hi, 16, u32::MAX as u64)
    } else {
        parse_digit_string(&chars, lo, hi, 10, u32::MAX as u64)
    };
    match value {
        Some(v) => Ok(v as u32),
        None => Err(ParseCodeError::MalformedCode),
    }
}

/// Trimming leaves alone a text that neither begins nor ends with whitespace.
pub proof fn lemma_trim_keeps(s: Seq<char>)
    requires
        s.len() > 0,
        !is_whitespace(s.first()),
        !is_whitespace(s.last()),
    ensures
        trim(s) == s,
{
}

/// A token whose digits begin with a plus sign denotes no code.
pub proof fn lemma_plus_sign_is_refused(token: Seq<char>)
    requires
        ({
            let t = trim(token);
            ||| t.len() > 0 && t[0] == '+'
            ||| has_hex_prefix(t) && t.len() > 2 && t[2] == '+'
        }),
    ensures
        parse_code(token) is None,
{
    let t = trim(token);
    let digits = if has_hex_prefix(t) {
        t.subrange(2, t.len() as int)
    } else {
        t
    };
    let radix: nat = if has_hex_prefix(t) {
        16
    } else {
        10
    };
    assert(digits.len() > 0 && digits[0] == '+');
    assert(digits.take(1) =~= seq!['+']);
    assert(digits.take(1).drop_last() =~= Seq::<char>::empty());
    assert(digits_value(digits.take(1), radix) is None);
    lemma_prefix_value(digits, 1, radix);
}

/// A code written in hexadecimal or in decimal reads back as itself.
pub proof fn lemma_parse_code_roundtrip(code: u32)
    ensures
        parse_code(hex_text(code)) == Some(code),
        parse_code(decimal_text(code)) == Some(code),
{
    let hex = digits_of(code as nat, 16);
    let dec = digits_of(code as nat, 10);
    lemma_digits_roundtrip(code as nat, 16);
    lemma_digits_roundtrip(code as nat, 10);
    let h = hex_text(code);
    assert(h.first() == '0');
    assert(h.last() == hex.last());
    assert(h.subrange(2, h.len() as int) =~= hex);
    lemma_trim_keeps(h);
    assert(h[1] == 'x');
    lemma_trim_keeps(dec);
}

} // verus!
