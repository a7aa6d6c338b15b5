use ohsol::decoder::decode_error;
use ohsol::decoder::registry::{
    get_program_name, list_program_errors, lookup_anchor_error, lookup_program_error,
    ErrorDatabase, ErrorEntry, ProgramErrors,
};
use ohsol::output::DecodedError;

const TOKEN: &str = "TokenkegQfeZyiNwAJbNbGKPFXCWuBvf9Ss623VQ5DA";
const JUPITER: &str = "JUP6LkbZbjS1jKKwapdHNy74zcZ3tLUZoi5QNyVTaV4";

fn entry(code: u32, name: &str, msg: &str) -> ErrorEntry {
    ErrorEntry { code, name: name.to_string(), msg: msg.to_string() }
}

fn empty() -> ErrorDatabase {
    ErrorDatabase { programs: Vec::new(), anchor_errors: Vec::new() }
}

fn sample() -> ErrorDatabase {
    ErrorDatabase {
        programs: vec![
            (
                TOKEN.to_string(),
                ProgramErrors {
                    name: "spl-token".to_string(),
                    errors: vec![
                        entry(0, "NotRentExempt", "Lamport balance below rent-exempt threshold"),
                        entry(1, "InsufficientFunds", "Insufficient funds"),
                        entry(1, "Shadowed", "never found"),
                    ],
                },
            ),
            (
                JUPITER.to_string(),
                ProgramErrors {
                    name: "jupiter".to_string(),
                    errors: vec![
                        entry(6001, "SlippageToleranceExceeded", "Slippage tolerance exceeded"),
                        entry(100, "LowCode", "A program's own low code"),
                    ],
                },
            ),
        ],
        anchor_errors: vec![
            entry(100, "InstructionMissing", "8 byte instruction identifier not provided"),
            entry(2000, "ConstraintMut", "A mut constraint was violated"),
            entry(6001, "NeverAsked", "above the threshold"),
        ],
    }
}

fn check(error: &DecodedError, program: &str, code: u32, name: &str, message: &str) {
    assert_eq!(error.program_id(), program);
    assert_eq!(error.error_code(), code);
    assert_eq!(error.error_hex(), &format!("0x{:x}", code));
    assert_eq!(error.error_name().as_deref(), Some(name));
    assert_eq!(error.error_message().as_deref(), Some(message));
    assert_eq!(error.source_file(), &None);
    assert_eq!(error.source_line(), None);
    assert_eq!(error.cpi_depth(), None);
}

#[test]
fn unknown_custom_code_without_a_program() {
    let error = decode_error(&empty(), 6001, None);
    check(&error, "", 6001, "CustomError[1]", "Custom program error at variant index 1");
}

#[test]
fn unknown_custom_code_with_a_program() {
    let error = decode_error(&empty(), 6007, Some(TOKEN));
    check(&error, TOKEN, 6007, "CustomError[7]", "Custom program error at variant index 7");
}

#[test]
fn unknown_low_code() {
    let error = decode_error(&empty(), 5999, None);
    check(&error, "", 5999, "Unknown", "Unknown error code");
    let error = decode_error(&sample(), 17, Some(TOKEN));
    check(&error, TOKEN, 17, "Unknown", "Unknown error code");
}

#[test]
fn framework_code_is_the_frameworks() {
    let error = decode_error(&sample(), 2000, None);
    check(&error, "Anchor Framework", 2000, "ConstraintMut", "A mut constraint was violated");
    let error = decode_error(&sample(), 2000, Some(TOKEN));
    check(&error, "Anchor Framework", 2000, "ConstraintMut", "A mut constraint was violated");
}

#[test]
fn framework_list_wins_over_the_programs_for_reserved_codes() {
    let error = decode_error(&sample(), 100, Some(JUPITER));
    check(
        &error,
        "Anchor Framework",
        100,
        "InstructionMissing",
        "8 byte instruction identifier not provided",
    );
}

#[test]
fn framework_list_is_not_asked_at_the_threshold_or_above() {
    let error = decode_error(&sample(), 6001, None);
    check(&error, "", 6001, "CustomError[1]", "Custom program error at variant index 1");
}

#[test]
fn programs_own_list_wins_over_the_generic_description() {
    let error = decode_error(&sample(), 6001, Some(JUPITER));
    check(&error, JUPITER, 6001, "SlippageToleranceExceeded", "Slippage tolerance exceeded");
    let error = decode_error(&sample(), 6001, Some(TOKEN));
    check(&error, TOKEN, 6001, "CustomError[1]", "Custom program error at variant index 1");
}

#[test]
fn programs_own_low_code() {
    let error = decode_error(&sample(), 1, Some(TOKEN));
    check(&error, TOKEN, 1, "InsufficientFunds", "Insufficient funds");
    let error = decode_error(&sample(), 1, None);
    check(&error, "", 1, "Unknown", "Unknown error code");
}

#[test]
fn rendering_belongs_to_the_code_in_every_tier() {
    let db = sample();
    for code in [0u32, 1, 100, 2000, 5999, 6000, 6001, 65535, u32::MAX] {
        for program in [None, Some(TOKEN), Some(JUPITER), Some("nobody")] {
            let error = decode_error(&db, code, program);
            assert_eq!(error.error_code(), code);
            assert_eq!(error.error_hex(), &format!("0x{:x}", code));
        }
    }
}

#[test]
fn lookup_in_a_program() {
    let db = sample();
    let found = lookup_program_error(&db, TOKEN, 0).unwrap();
    check(&found, TOKEN, 0, "NotRentExempt", "Lamport balance below rent-exempt threshold");
    let first = lookup_program_error(&db, TOKEN, 1).unwrap();
    check(&first, TOKEN, 1, "InsufficientFunds", "Insufficient funds");
    assert!(lookup_program_error(&db, TOKEN, 2).is_none());
    assert!(lookup_program_error(&db, "nobody", 0).is_none());
    assert!(lookup_program_error(&db, "spl-token", 0).is_none());
    assert!(lookup_program_error(&empty(), TOKEN, 0).is_none());
}

#[test]
fn lookup_in_the_framework() {
    let db = sample();
    let found = lookup_anchor_error(&db, 2000).unwrap();
    check(&found, "Anchor Framework", 2000, "ConstraintMut", "A mut constraint was violated");
    let high = lookup_anchor_error(&db, 6001).unwrap();
    check(&high, "Anchor Framework", 6001, "NeverAsked", "above the threshold");
    assert!(lookup_anchor_error(&db, 2001).is_none());
    assert!(lookup_anchor_error(&empty(), 2000).is_none());
}

#[test]
fn list_by_identifier_and_by_name() {
    let db = sample();
    let by_id = list_program_errors(&db, JUPITER).unwrap();
    assert_eq!(by_id.len(), 2);
    check(&by_id[0], JUPITER, 6001, "SlippageToleranceExceeded", "Slippage tolerance exceeded");
    check(&by_id[1], JUPITER, 100, "LowCode", "A program's own low code");
    let by_name = list_program_errors(&db, "spl-token").unwrap();
    assert_eq!(by_name.len(), 3);
    check(&by_name[0], TOKEN, 0, "NotRentExempt", "Lamport balance below rent-exempt threshold");
    check(&by_name[1], TOKEN, 1, "InsufficientFunds", "Insufficient funds");
    check(&by_name[2], TOKEN, 1, "Shadowed", "never found");
    assert!(list_program_errors(&db, "nobody").is_none());
    assert!(list_program_errors(&empty(), "spl-token").is_none());
}

#[test]
fn listing_prefers_the_identifier_to_the_name() {
    let db = ErrorDatabase {
        programs: vec![
            ("a".to_string(), ProgramErrors { name: "b".to_string(), errors: vec![entry(1, "A", "a")] }),
            ("b".to_string(), ProgramErrors { name: "c".to_string(), errors: vec![entry(2, "B", "b")] }),
        ],
        anchor_errors: Vec::new(),
    };
    let listed = list_program_errors(&db, "b").unwrap();
    assert_eq!(listed.len(), 1);
    check(&listed[0], "b", 2, "B", "b");
    let listed = list_program_errors(&db, "c").unwrap();
    check(&listed[0], "b", 2, "B", "b");
}

#[test]
fn program_names() {
    let db = sample();
    assert_eq!(get_program_name(&db, TOKEN).as_deref(), Some("spl-token"));
    assert_eq!(get_program_name(&db, JUPITER).as_deref(), Some("jupiter"));
    assert_eq!(get_program_name(&db, "spl-token"), None);
    assert_eq!(get_program_name(&empty(), TOKEN), None);
}
