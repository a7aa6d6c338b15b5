use ohsol::output::DecodedError;
use ohsol::report::{report_lines, table_row, ReportLabel};

fn shown(error: &DecodedError) -> Vec<(ReportLabel, String)> {
    report_lines(error).into_iter().map(|line| (line.label, line.value)).collect()
}

#[test]
fn bare_record_shows_nothing_below_its_code() {
    assert!(report_lines(&DecodedError::new(6001)).is_empty());
}

#[test]
fn full_record_shows_every_line_in_order() {
    let error = DecodedError::new(6001)
        .with_cpi_depth(2)
        .with_source("programs/p/src/lib.rs".to_string(), 42)
        .with_message("Amount too large".to_string())
        .with_name("AmountTooLarge".to_string())
        .with_program("prog".to_string());
    assert_eq!(
        shown(&error),
        vec![
            (ReportLabel::Program, "prog".to_string()),
            (ReportLabel::Name, "AmountTooLarge".to_string()),
            (ReportLabel::Message, "Amount too large".to_string()),
            (ReportLabel::Source, "programs/p/src/lib.rs:42".to_string()),
            (ReportLabel::CpiDepth, "2".to_string()),
        ]
    );
}

#[test]
fn unattributed_record_shows_no_program() {
    let error = DecodedError::new(1).with_program(String::new()).with_name("N".to_string());
    assert_eq!(shown(&error), vec![(ReportLabel::Name, "N".to_string())]);
}

#[test]
fn depth_zero_is_shown() {
    let error = DecodedError::new(1).with_cpi_depth(0);
    assert_eq!(shown(&error), vec![(ReportLabel::CpiDepth, "0".to_string())]);
    let error = DecodedError::new(1).with_cpi_depth(255);
    assert_eq!(shown(&error), vec![(ReportLabel::CpiDepth, "255".to_string())]);
}

#[test]
fn source_is_file_colon_line() {
    let error = DecodedError::new(1).with_source("a:b.rs".to_string(), 0);
    assert_eq!(shown(&error), vec![(ReportLabel::Source, "a:b.rs:0".to_string())]);
    let error = DecodedError::new(1).with_source(String::new(), u32::MAX);
    assert_eq!(shown(&error), vec![(ReportLabel::Source, ":4294967295".to_string())]);
}

#[test]
fn row_of_a_known_error() {
    let error = DecodedError::new(6001)
        .with_name("AmountTooLarge".to_string())
        .with_message("Amount too large".to_string());
    assert_eq!(table_row(&error), vec!["6001", "0x1771", "AmountTooLarge", "Amount too large"]);
}

#[test]
fn row_of_a_bare_record() {
    assert_eq!(table_row(&DecodedError::new(0)), vec!["0", "0x0", "Unknown", "-"]);
    assert_eq!(
        table_row(&DecodedError::new(u32::MAX)),
        vec!["4294967295", "0xffffffff", "Unknown", "-"]
    );
}
