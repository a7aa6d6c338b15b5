//! What a record has to show: the lines of a report, and the cells of a row
//! in a table. How they are laid out and coloured is the caller's business.

use crate::number::{decimal_text, format_decimal};
use crate::output::{DecodedError, DecodedErrorView};
use vstd::prelude::*;
use vstd::string::StringExecFns;

verus! {

/// What a line of a report is about.
#[derive(Debug, Clone, Copy, PartialEq, Eq, Structural)]
pub enum ReportLabel {
    Program,
    Name,
    Message,
    Source,
    CpiDepth,
}

/// One line of a report.
#[derive(Debug)]
pub struct ReportLine {
    pub label: ReportLabel,
    pub value: String,
}

impl View for ReportLine {
    type V = (ReportLabel, Seq<char>);

    open spec fn view(&self) -> (ReportLabel, Seq<char>) {
        (self.label, self.value@)
    }
}

/// `lines`, and one more about `label` where there is a value for it.
pub open spec fn with_line(
    lines: Seq<(ReportLabel, Seq<char>)>,
    label: ReportLabel,
    value: Option<Seq<char>>,
) -> Seq<(ReportLabel, Seq<char>)> {
    match value {
        Some(v) => lines.push((label, v)),
        None => lines,
    }
}

/// Where an error came from, written as file, colon, line.
pub open spec fn source_text(error: DecodedErrorView) -> Option<Seq<char>> {
    match (error.source_file, error.source_line) {
        (Some(file), Some(line)) => Some(file + seq![':'] + decimal_text(line)),
        _ => None,
    }
}

/// The lines that a record has to show below its code, in order: the
/// program unless the record is unattributed, then name, message, source and
/// call depth, each where it is known.
pub open spec fn report(error: DecodedErrorView) -> Seq<(ReportLabel, Seq<char>)> {
    let program = if error.program_id.len() > 0 {
        Some(error.program_id)
    } else {
        None
    };
    let depth = match error.cpi_depth {
        Some(d) => Some(decimal_text(d as u32)),
        None => None,
    };
    let lines = with_line(Seq::empty(), ReportLabel::Program, program);
    let lines = with_line(lines, ReportLabel::Name, error.error_name);
    let lines = with_line(lines, ReportLabel::Message, error.error_message);
    let lines = with_line(lines, ReportLabel::Source, source_text(error));
    with_line(lines, ReportLabel::CpiDepth, depth)
}

/// The lines of a list as mathematical values.
pub open spec fn line_views(lines: Seq<ReportLine>) -> Seq<(ReportLabel, Seq<char>)> {
    lines.map_values(|l: ReportLine| l@)
}

pub fn report_lines(error: &DecodedError) -> (lines: Vec<ReportLine>)
    ensures
        line_views(lines@) == report(error@),
{
    let mut lines: Vec<ReportLine> = Vec::new();
    assert(line_views(lines@) =~= Seq::empty());
    if !error.program_id().as_str().is_empty() {
        let ghost before = line_views(lines@);
        lines.push(ReportLine { label: ReportLabel::Program, value: error.program_id().clone() });
        assert(line_views(lines@) =~= before.push((ReportLabel::Program, error@.program_id)));
    }
    if let Some(name) = error.error_name() {
        let ghost before = line_views(lines@);
        lines.push(ReportLine { label: ReportLabel::Name, value: name.clone() });
        assert(line_views(lines@) =~= before.push((ReportLabel::Name, name@)));
    }
    if let Some(message) = error.error_message() {
        let ghost before = line_views(lines@);
        lines.push(ReportLine { label: ReportLabel::Message, value: message.clone() });
        assert(line_views(lines@) =~= before.push((ReportLabel::Message, message@)));
    }
    if let Some(file) = error.source_file() {
        if let Some(line) = error.source_line() {
            let ghost before = line_views(lines@);
            let mut value = file.clone();
            value.push(':');
            value.append(format_decimal(line).as_str());
            assert(value@ =~= file@ + seq![':'] + decimal_text(line));
            lines.push(ReportLine { label: ReportLabel::Source, value });
            assert(line_views(lines@) =~= before.push(
                (ReportLabel::Source, file@ + seq![':'] + decimal_text(line)),
            ));
        }
    }
    if let Some(depth) = error.cpi_depth() {
        let ghost before = line_views(lines@);
        lines.push(ReportLine { label: ReportLabel::CpiDepth, value: format_decimal(depth as u32) });
        assert(line_views(lines@) =~= before.push(
            (ReportLabel::CpiDepth, decimal_text(depth as u32)),
        ));
    }
    lines
}

/// The four cells of a record's row: the code in decimal and in
/// hexadecimal, the name or `Unknown`, the message or a dash.
pub open spec fn row(error: DecodedErrorView) -> Seq<Seq<char>> {
    seq![
        decimal_text(error.error_code),
        error.error_hex,
        match error.error_name {
            Some(name) => name,
            None => "Unknown"@,
        },
        match error.error_message {
            Some(message) => message,
            None => "-"@,
        },
    ]
}

/// The characters of each cell.
pub open spec fn cell_texts(cells: Seq<String>) -> Seq<Seq<char>> {
    cells.map_values(|c: String| c@)
}

pub fn table_row(error: &DecodedError) -> (cells: Vec<String>)
    ensures
        cell_texts(cells@) == row(error@),
{
    let mut cells: Vec<String> = Vec::new();
    cells.push(format_decimal(error.error_code()));
    cells.push(error.error_hex().clone());
    cells.push(
        match error.error_name() {
            Some(name) => name.clone(),
            None => String::from_str("Unknown"),
        },
    );
    cells.push(
        match error.error_message() {
            Some(message) => message.clone(),
            None => String::from_str("-"),
        },
    );
    assert(cell_texts(cells@) =~= row(error@));
    cells
}

} // verus!
