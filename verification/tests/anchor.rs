use ohsol::decoder::anchor::{
    decode_anchor_custom, is_anchor_custom_error, parse_error_code, ParseCodeError,
    ANCHOR_ERROR_OFFSET,
};
use ohsol::number::{format_decimal, format_hex};

#[test]
fn test_parse_hex() {
    assert_eq!(parse_error_code("0x1771").unwrap(), 6001);
}

#[test]
fn test_parse_decimal() {
    assert_eq!(parse_error_code("6001").unwrap(), 6001);
}

#[test]
fn test_is_anchor_custom() {
    assert!(is_anchor_custom_error(6000));
    assert!(is_anchor_custom_error(6001));
    assert!(!is_anchor_custom_error(2000));
}

#[test]
fn threshold_is_six_thousand() {
    assert_eq!(ANCHOR_ERROR_OFFSET, 6000);
    assert!(!is_anchor_custom_error(5999));
    assert!(is_anchor_custom_error(u32::MAX));
}

#[test]
fn parse_trims_whitespace() {
    assert_eq!(parse_error_code("  0x1771\n"), Ok(6001));
    assert_eq!(parse_error_code("\t42 "), Ok(42));
    assert_eq!(parse_error_code("\u{3000}7\u{a0}"), Ok(7));
}

#[test]
fn parse_accepts_either_case_of_digits_but_not_of_prefix() {
    assert_eq!(parse_error_code("0xFF"), Ok(255));
    assert_eq!(parse_error_code("0xfF"), Ok(255));
    assert_eq!(parse_error_code("0XFF"), Err(ParseCodeError::MalformedCode));
}

#[test]
fn parse_refuses_a_sign() {
    assert_eq!(parse_error_code("+6001"), Err(ParseCodeError::MalformedCode));
    assert_eq!(parse_error_code("+5"), Err(ParseCodeError::MalformedCode));
    assert_eq!(parse_error_code("+0"), Err(ParseCodeError::MalformedCode));
    assert_eq!(parse_error_code(" +5 "), Err(ParseCodeError::MalformedCode));
    assert_eq!(parse_error_code("0x+1771"), Err(ParseCodeError::MalformedCode));
    assert_eq!(parse_error_code("0x+f"), Err(ParseCodeError::MalformedCode));
    assert_eq!(parse_error_code("+0x1771"), Err(ParseCodeError::MalformedCode));
    assert_eq!(parse_error_code("++1"), Err(ParseCodeError::MalformedCode));
    assert_eq!(parse_error_code("+"), Err(ParseCodeError::MalformedCode));
    assert_eq!(parse_error_code("5+"), Err(ParseCodeError::MalformedCode));
    assert_eq!(parse_error_code("-0"), Err(ParseCodeError::MalformedCode));
    assert_eq!(parse_error_code("0x-f"), Err(ParseCodeError::MalformedCode));
}

#[test]
fn parse_rejects_empty_tokens() {
    assert_eq!(parse_error_code(""), Err(ParseCodeError::MalformedCode));
    assert_eq!(parse_error_code("   "), Err(ParseCodeError::MalformedCode));
    assert_eq!(parse_error_code("0x"), Err(ParseCodeError::MalformedCode));
}

#[test]
fn parse_rejects_foreign_content() {
    assert_eq!(parse_error_code("12a"), Err(ParseCodeError::MalformedCode));
    assert_eq!(parse_error_code("0x12g"), Err(ParseCodeError::MalformedCode));
    assert_eq!(parse_error_code("-1"), Err(ParseCodeError::MalformedCode));
    assert_eq!(parse_error_code("1 2"), Err(ParseCodeError::MalformedCode));
    assert_eq!(parse_error_code("1_000"), Err(ParseCodeError::MalformedCode));
    assert_eq!(parse_error_code("ff"), Err(ParseCodeError::MalformedCode));
}

#[test]
fn parse_rejects_what_32_bits_cannot_hold() {
    assert_eq!(parse_error_code("4294967295"), Ok(u32::MAX));
    assert_eq!(parse_error_code("4294967296"), Err(ParseCodeError::MalformedCode));
    assert_eq!(parse_error_code("0xffffffff"), Ok(u32::MAX));
    assert_eq!(parse_error_code("0x100000000"), Err(ParseCodeError::MalformedCode));
    assert_eq!(
        parse_error_code("99999999999999999999999999999999"),
        Err(ParseCodeError::MalformedCode)
    );
    assert_eq!(parse_error_code("0000000000000000000000000000000042"), Ok(42));
}

#[test]
fn parse_of_unsigned_tokens_agrees_with_the_standard_library() {
    let tokens = [
        "0", "1", "-0", "6000", "0x0", "0x1771", "0x-f", "00x1", "x", "0x 1",
        "4294967295", "4294967296", "18446744073709551616", "\u{663}", "1\u{663}", "0xDEADBEEF",
        "0xdeadbeef0", " 12 ", "1e3", "0b11",
    ];
    for token in tokens {
        let trimmed = token.trim();
        let expected = match trimmed.strip_prefix("0x") {
            Some(hex) => u32::from_str_radix(hex, 16).ok(),
            None => trimmed.parse::<u32>().ok(),
        };
        assert_eq!(parse_error_code(token).ok(), expected, "token {:?}", token);
    }
}

#[test]
fn written_codes_read_back() {
    for code in [0u32, 1, 9, 10, 15, 16, 255, 256, 5999, 6000, 6001, 65535, 1 << 31, u32::MAX] {
        assert_eq!(parse_error_code(&format_hex(code)), Ok(code));
        assert_eq!(parse_error_code(&format_decimal(code)), Ok(code));
    }
}

#[test]
fn custom_code_is_described_by_its_variant_index() {
    let error = decode_anchor_custom(6001);
    assert_eq!(error.error_code(), 6001);
    assert_eq!(error.error_hex(), "0x1771");
    assert_eq!(error.program_id(), "");
    assert_eq!(error.error_name().as_deref(), Some("CustomError[1]"));
    assert_eq!(
        error.error_message().as_deref(),
        Some("Custom program error at variant index 1")
    );
    assert_eq!(error.source_file(), &None);
    assert_eq!(error.source_line(), None);
    assert_eq!(error.cpi_depth(), None);
}

#[test]
fn custom_code_at_the_ends_of_the_range() {
    let first = decode_anchor_custom(6000);
    assert_eq!(first.error_name().as_deref(), Some("CustomError[0]"));
    assert_eq!(
        first.error_message().as_deref(),
        Some("Custom program error at variant index 0")
    );
    let last = decode_anchor_custom(u32::MAX);
    assert_eq!(last.error_name().as_deref(), Some("CustomError[4294961295]"));
    assert_eq!(
        last.error_message().as_deref(),
        Some("Custom program error at variant index 4294961295")
    );
}
