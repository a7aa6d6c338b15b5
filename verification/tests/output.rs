use ohsol::output::DecodedError;

#[test]
fn bare_record() {
    let error = DecodedError::new(6001);
    assert_eq!(error.program_id(), "");
    assert_eq!(error.error_code(), 6001);
    assert_eq!(error.error_hex(), "0x1771");
    assert_eq!(error.error_name(), &None);
    assert_eq!(error.error_message(), &None);
    assert_eq!(error.source_file(), &None);
    assert_eq!(error.source_line(), None);
    assert_eq!(error.cpi_depth(), None);
}

#[test]
fn rendering_is_lower_case_without_padding() {
    assert_eq!(DecodedError::new(0).error_hex(), "0x0");
    assert_eq!(DecodedError::new(0xABCDEF).error_hex(), "0xabcdef");
    assert_eq!(DecodedError::new(u32::MAX).error_hex(), "0xffffffff");
}

#[test]
fn builders_set_one_thing_each() {
    let error = DecodedError::new(1)
        .with_program("prog".to_string())
        .with_name("Name".to_string())
        .with_message("Message".to_string())
        .with_source("lib.rs".to_string(), 42)
        .with_cpi_depth(3);
    assert_eq!(error.program_id(), "prog");
    assert_eq!(error.error_code(), 1);
    assert_eq!(error.error_hex(), "0x1");
    assert_eq!(error.error_name().as_deref(), Some("Name"));
    assert_eq!(error.error_message().as_deref(), Some("Message"));
    assert_eq!(error.source_file().as_deref(), Some("lib.rs"));
    assert_eq!(error.source_line(), Some(42));
    assert_eq!(error.cpi_depth(), Some(3));
}

#[test]
fn later_values_replace_earlier_ones() {
    let error = DecodedError::new(2)
        .with_program("a".to_string())
        .with_program("b".to_string())
        .with_cpi_depth(1)
        .with_cpi_depth(0)
        .with_source("x.rs".to_string(), 1)
        .with_source("y.rs".to_string(), 2);
    assert_eq!(error.program_id(), "b");
    assert_eq!(error.cpi_depth(), Some(0));
    assert_eq!(error.source_file().as_deref(), Some("y.rs"));
    assert_eq!(error.source_line(), Some(2));
}

#[test]
fn clones_are_equal_field_by_field() {
    let error = DecodedError::new(6001)
        .with_program("prog".to_string())
        .with_name("Name".to_string())
        .with_source("lib.rs".to_string(), 7);
    let copy = error.clone();
    assert_eq!(copy.program_id(), error.program_id());
    assert_eq!(copy.error_code(), error.error_code());
    assert_eq!(copy.error_hex(), error.error_hex());
    assert_eq!(copy.error_name(), error.error_name());
    assert_eq!(copy.error_message(), error.error_message());
    assert_eq!(copy.source_file(), error.source_file());
    assert_eq!(copy.source_line(), error.source_line());
    assert_eq!(copy.cpi_depth(), error.cpi_depth());
}
