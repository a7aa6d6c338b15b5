//! One log line, one entry: each kind of line has a pattern, the patterns are
//! tried in a fixed order, and a line that fits none is kept as it is.

use crate::number::{parse_number, parse_unsigned};
use crate::pattern::{captures, captures_of, compile, compiled_pattern, group_texts};
use crate::text::chars_of;
use vstd::prelude::*;

verus! {

pub const INVOKE_PATTERN: &'static str = r"^Program ([1-9A-HJ-NP-Za-km-z]{32,}) invoke \[(\d+)\]$";

pub const SUCCESS_PATTERN: &'static str = r"^Program ([1-9A-HJ-NP-Za-km-z]{32,}) success$";

pub const FAILED_PATTERN: &'static str = r"^Program ([1-9A-HJ-NP-Za-km-z]{32,}) failed: (.*)$";

pub const CONSUMED_PATTERN: &'static str =
    r"^Program ([1-9A-HJ-NP-Za-km-z]{32,}) consumed (\d+) of (\d+) compute units$";

pub const ANCHOR_ERROR_PATTERN: &'static str =
    r"AnchorError thrown in ([^:]+):(\d+)\. Error Code: (\w+)\. Error Number: (\d+)\. Error Message: ([^.]+)";

pub const CUSTOM_ERROR_PATTERN: &'static str = r"custom program error: 0x([0-9a-fA-F]+)";

/// What a log line says.
#[derive(Debug, Clone)]
pub enum LogEntry {
    Invoke { program_id: String, depth: u8 },
    Success { program_id: String },
    Failed { program_id: String, error: String },
    Consumed { program_id: String, used: u64, total: u64 },
    AnchorError { file: String, line: u32, code_name: String, code_number: u32, message: String },
    CustomError { hex_code: String },
    Other { message: String },
}

/// A [`LogEntry`] as a mathematical value.
pub enum LogEntryView {
    Invoke { program_id: Seq<char>, depth: u8 },
    Success { program_id: Seq<char> },
    Failed { program_id: Seq<char>, error: Seq<char> },
    Consumed { program_id: Seq<char>, used: u64, total: u64 },
    AnchorError {
        file: Seq<char>,
        line: u32,
        code_name: Seq<char>,
        code_number: u32,
        message: Seq<char>,
    },
    CustomError { hex_code: Seq<char> },
    Other { message: Seq<char> },
}

impl View for LogEntry {
    type V = LogEntryView;

    open spec fn view(&self) -> LogEntryView {
        match *self {
            LogEntry::Invoke { program_id, depth } => LogEntryView::Invoke {
                program_id: program_id@,
                depth,
            },
            LogEntry::Success { program_id } => LogEntryView::Success { program_id: program_id@ },
            LogEntry::Failed { program_id, error } => LogEntryView::Failed {
                program_id: program_id@,
                error: error@,
            },
            LogEntry::Consumed { program_id, used, total } => LogEntryView::Consumed {
                program_id: program_id@,
                used,
                total,
            },
            LogEntry::AnchorError { file, line, code_name, code_number, message } => {
                LogEntryView::AnchorError {
                    file: file@,
                    line,
                    code_name: code_name@,
                    code_number,
                    message: message@,
                }
            },
            LogEntry::CustomError { hex_code } => LogEntryView::CustomError { hex_code: hex_code@ },
            LogEntry::Other { message } => LogEntryView::Other { message: message@ },
        }
    }
}

/// The kinds of line that have a pattern, in the order in which they are
/// tried.
#[derive(Debug, Clone, Copy, PartialEq, Eq, Structural)]
pub enum LineKind {
    Invoke,
    Success,
    Failed,
    Consumed,
    AnchorError,
    CustomError,
}

impl LineKind {
    /// The place of the kind in the order of trying, from 0.
    pub open spec fn rank(self) -> int {
        match self {
            LineKind::Invoke => 0,
            LineKind::Success => 1,
            LineKind::Failed => 2,
            LineKind::Consumed => 3,
            LineKind::AnchorError => 4,
            LineKind::CustomError => 5,
        }
    }
}

/// The pattern of each kind of line.
pub open spec fn pattern_text(kind: LineKind) -> Seq<char> {
    match kind {
        LineKind::Invoke => INVOKE_PATTERN@,
        LineKind::Success => SUCCESS_PATTERN@,
        LineKind::Failed => FAILED_PATTERN@,
        LineKind::Consumed => CONSUMED_PATTERN@,
        LineKind::AnchorError => ANCHOR_ERROR_PATTERN@,
        LineKind::CustomError => CUSTOM_ERROR_PATTERN@,
    }
}

/// Executable form of [`pattern_text`].
pub fn pattern_of(kind: LineKind) -> (p: &'static str)
    ensures
        p@ == pattern_text(kind),
{
    match kind {
        LineKind::Invoke => INVOKE_PATTERN,
        LineKind::Success => SUCCESS_PATTERN,
        LineKind::Failed => FAILED_PATTERN,
        LineKind::Consumed => CONSUMED_PATTERN,
        LineKind::AnchorError => ANCHOR_ERROR_PATTERN,
        LineKind::CustomError => CUSTOM_ERROR_PATTERN,
    }
}

/// The number that a captured field denotes in decimal, or zero where it
/// denotes none that is at most `max`.
pub open spec fn number_or_zero(field: Seq<char>, max: nat) -> nat {
    match parse_unsigned(field, 10, max) {
        Some(v) => v,
        None => 0,
    }
}

/// Whether a match has the groups 1 to `count`, each with a text.
pub open spec fn has_groups(groups: Seq<Option<Seq<char>>>, count: int) -> bool {
    groups.len() > count && forall|i: int| 1 <= i <= count ==> (#[trigger] groups[i]) is Some
}

/// The entry that a match of the pattern of `kind` stands for, given the
/// texts of its groups; none where a group that the entry needs is missing.
pub open spec fn entry_of(kind: LineKind, groups: Seq<Option<Seq<char>>>) -> Option<LogEntryView> {
    match kind {
        LineKind::Invoke => if has_groups(groups, 2) {
            Some(
                LogEntryView::Invoke {
                    program_id: groups[1]->0,
                    depth: number_or_zero(groups[2]->0, u8::MAX as nat) as u8,
                },
            )
        } else {
            None
        },
        LineKind::Success => if has_groups(groups, 1) {
            Some(LogEntryView::Success { program_id: groups[1]->0 })
        } else {
            None
        },
        LineKind::Failed => if has_groups(groups, 2) {
            Some(LogEntryView::Failed { program_id: groups[1]->0, error: groups[2]->0 })
        } else {
            None
        },
        LineKind::Consumed => if has_groups(groups, 3) {
            Some(
                LogEntryView::Consumed {
                    program_id: groups[1]->0,
                    used: number_or_zero(groups[2]->0, u64::MAX as nat) as u64,
                    total: number_or_zero(groups[3]->0, u64::MAX as nat) as u64,
                },
            )
        } else {
            None
        },
        LineKind::AnchorError => if has_groups(groups, 5) {
            Some(
                LogEntryView::AnchorError {
                    file: groups[1]->0,
                    line: number_or_zero(groups[2]->0, u32::MAX as nat) as u32,
                    code_name: groups[3]->0,
                    code_number: number_or_zero(groups[4]->0, u32::MAX as nat) as u32,
                    message: groups[5]->0,
                },
            )
        } else {
            None
        },
        LineKind::CustomError => if has_groups(groups, 1) {
            Some(LogEntryView::CustomError { hex_code: groups[1]->0 })
        } else {
            None
        },
    }
}

/// The entry of kind `kind` that `line` stands for, if its pattern is found
/// in the line.
pub open spec fn entry_of_kind(kind: LineKind, line: Seq<char>) -> Option<LogEntryView> {
    match captures_of(pattern_text(kind), line) {
        Some(groups) => entry_of(kind, groups),
        None => None,
    }
}

/// The entry that `line` stands for: that of the first kind, in the order of
/// [`LineKind`], whose pattern is found in it, else the line itself.
pub open spec fn classify(line: Seq<char>) -> LogEntryView {
    if let Some(entry) = entry_of_kind(LineKind::Invoke, line) {
        entry
    } else if let Some(entry) = entry_of_kind(LineKind::Success, line) {
        entry
    } else if let Some(entry) = entry_of_kind(LineKind::Failed, line) {
        entry
    } else if let Some(entry) = entry_of_kind(LineKind::Consumed, line) {
        entry
    } else if let Some(entry) = entry_of_kind(LineKind::AnchorError, line) {
        entry
    } else if let Some(entry) = entry_of_kind(LineKind::CustomError, line) {
        entry
    } else {
        LogEntryView::Other { message: line }
    }
}

/// The entries that the lines stand for, one for one.
pub open spec fn classify_all(lines: Seq<Seq<char>>) -> Seq<LogEntryView> {
    lines.map_values(|line: Seq<char>| classify(line))
}

/// The view of an optional entry.
pub open spec fn entry_view(entry: Option<LogEntry>) -> Option<LogEntryView> {
    match entry {
        Some(e) => Some(e@),
        None => None,
    }
}

/// Reads a captured field as a decimal number of at most `max`, zero where
/// it is none.
pub fn field_number(field: &String, max: u64) -> (n: u64)
    ensures
        n == number_or_zero(field@, max as nat),
        n <= max,
{
    let chars = chars_of(field.as_str());
    assert(chars@.subrange(0, chars.len() as int) =~= chars@);
    match parse_number(&chars, 0, chars.len(), 10, max) {
        Some(v) => v,
        None => 0,
    }
}

/// Whether `groups` has the groups 1 to `count`, each with a text.
fn groups_present(groups: &Vec<Option<String>>, count: usize) -> (b: bool)
    ensures
        b == has_groups(group_texts(groups@), count as int),
{
    if groups.len() <= count {
        return false;
    }
    let mut i: usize = 1;
    while i <= count
        invariant
            1 <= i <= count + 1,
            count < groups.len(),
            forall|j: int| 1 <= j < i ==> (#[trigger] group_texts(groups@)[j]) is Some,
        decreases count + 1 - i,
    {
        if groups[i].is_none() {
            assert(group_texts(groups@)[i as int] is None);
            return false;
        }
        i += 1;
    }
    true
}

/// The text of group `i`, which is there.
fn group(groups: &Vec<Option<String>>, i: usize) -> (s: String)
    requires
        i < groups.len(),
        groups[i as int] is Some,
    ensures
        s@ == group_texts(groups@)[i as int]->0,
{
    match &groups[i] {
        Some(s) => s.clone(),
        None => String::new(),
    }
}

/// Builds the entry of kind `kind` from the groups of a match of its
/// pattern.
pub fn entry_from_groups(kind: LineKind, groups: &Vec<Option<String>>) -> (r: Option<LogEntry>)
    ensures
        entry_view(r) == entry_of(kind, group_texts(groups@)),
{
    let ghost texts = group_texts(groups@);
    match kind {
        LineKind::Invoke => {
            if !groups_present(groups, 2) {
                return None;
            }
            assert(texts[1] is Some && texts[2] is Some);
            let depth = field_number(&group(groups, 2), u8::MAX as u64);
            Some(LogEntry::Invoke { program_id: group(groups, 1), depth: depth as u8 })
        },
        LineKind::Success => {
            if !groups_present(groups, 1) {
                return None;
            }
            assert(texts[1] is Some);
            Some(LogEntry::Success { program_id: group(groups, 1) })
        },
        LineKind::Failed => {
            if !groups_present(groups, 2) {
                return None;
            }
            assert(texts[1] is Some && texts[2] is Some);
            Some(LogEntry::Failed { program_id: group(groups, 1), error: group(groups, 2) })
        },
        LineKind::Consumed => {
            if !groups_present(groups, 3) {
                return None;
            }
            assert(texts[1] is Some && texts[2] is Some && texts[3] is Some);
            let used = field_number(&group(groups, 2), u64::MAX);
            let total = field_number(&group(groups, 3), u64::MAX);
            Some(LogEntry::Consumed { program_id: group(groups, 1), used, total })
        },
        LineKind::AnchorError => {
            if !groups_present(groups, 5) {
                return None;
            }
            assert(texts[1] is Some && texts[2] is Some && texts[3] is Some && texts[4] is Some
                && texts[5] is Some);
            let line = field_number(&group(groups, 2), u32::MAX as u64);
            let code_number = field_number(&group(groups, 4), u32::MAX as u64);
            Some(
                LogEntry::AnchorError {
                    file: group(groups, 1),
                    line: line as u32,
                    code_name: group(groups, 3),
                    code_number: code_number as u32,
                    message: group(groups, 5),
                },
            )
        },
        LineKind::CustomError => {
            if !groups_present(groups, 1) {
                return None;
            }
            assert(texts[1] is Some);
            Some(LogEntry::CustomError { hex_code: group(groups, 1) })
        },
    }
}

/// Which pattern the engine refused.
#[derive(Debug, Clone, Copy, PartialEq, Eq, Structural)]
pub struct PatternRefused {
    pub kind: LineKind,
}

/// Compiles the pattern of `kind`.
fn compile_kind(kind: LineKind) -> (r: Result<regex::Regex, PatternRefused>)
    ensures
        match r {
            Ok(re) => compiled_pattern(pattern_text(kind)) == Some(re),
            Err(refused) => refused.kind == kind && compiled_pattern(pattern_text(kind)) is None,
        },
{
    match compile(pattern_of(kind)) {
        Ok(re) => Ok(re),
        Err(_) => Err(PatternRefused { kind }),
    }
}

/// The compiled patterns, one for each kind of line.
pub struct LogPatterns {
    invoke: regex::Regex,
    success: regex::Regex,
    failed: regex::Regex,
    consumed: regex::Regex,
    anchor_error: regex::Regex,
    custom_error: regex::Regex,
}

impl LogPatterns {
    /// The compiled pattern of `kind`.
    spec fn regex_of(self, kind: LineKind) -> regex::Regex {
        match kind {
            LineKind::Invoke => self.invoke,
            LineKind::Success => self.success,
            LineKind::Failed => self.failed,
            LineKind::Consumed => self.consumed,
            LineKind::AnchorError => self.anchor_error,
            LineKind::CustomError => self.custom_error,
        }
    }

    #[verifier::type_invariant]
    spec fn compiled(self) -> bool {
        forall|kind: LineKind|
            compiled_pattern(pattern_text(kind)) == Some(#[trigger] self.regex_of(kind))
    }

    /// Compiles the six patterns. It fails where the engine refuses one of
    /// them, and says which it refused first.
    pub fn new() -> (r: Result<LogPatterns, PatternRefused>)
        ensures
            r is Ok <==> forall|kind: LineKind| #[trigger]
                compiled_pattern(pattern_text(kind)) is Some,
            r matches Err(refused) ==> {
                &&& compiled_pattern(pattern_text(refused.kind)) is None
                &&& forall|kind: LineKind|
                    kind.rank() < refused.kind.rank() ==> #[trigger] compiled_pattern(
                        pattern_text(kind),
                    ) is Some
            },
    {
        let invoke = compile_kind(LineKind::Invoke)?;
        let success = compile_kind(LineKind::Success)?;
        let failed = compile_kind(LineKind::Failed)?;
        let consumed = compile_kind(LineKind::Consumed)?;
        let anchor_error = compile_kind(LineKind::AnchorError)?;
        let custom_error = compile_kind(LineKind::CustomError)?;
        Ok(LogPatterns { invoke, success, failed, consumed, anchor_error, custom_error })
    }

    /// Tries the pattern of `kind` on `line`.
    fn entry_of_kind(&self, kind: LineKind, line: &str) -> (r: Option<LogEntry>)
        ensures
            entry_view(r) == entry_of_kind(kind, line@),
    {
        proof {
            use_type_invariant(self);
            assert(compiled_pattern(pattern_text(kind)) == Some(self.regex_of(kind)));
        }
        let re = match kind {
            LineKind::Invoke => &self.invoke,
            LineKind::Success => &self.success,
            LineKind::Failed => &self.failed,
            LineKind::Consumed => &self.consumed,
            LineKind::AnchorError => &self.anchor_error,
            LineKind::CustomError => &self.custom_error,
        };
        match captures(re, line) {
            Some(groups) => entry_from_groups(kind, &groups),
            None => None,
        }
    }
}

pub fn parse_log_line(patterns: &LogPatterns, line: &str) -> (entry: LogEntry)
    ensures
        entry@ == classify(line@),
{
    if let Some(entry) = patterns.entry_of_kind(LineKind::Invoke, line) {
        return entry;
    }
    if let Some(entry) = patterns.entry_of_kind(LineKind::Success, line) {
        return entry;
    }
    if let Some(entry) = patterns.entry_of_kind(LineKind::Failed, line) {
        return entry;
    }
    if let Some(entry) = patterns.entry_of_kind(LineKind::Consumed, line) {
        return entry;
    }
    if let Some(entry) = patterns.entry_of_kind(LineKind::AnchorError, line) {
        return entry;
    }
    if let Some(entry) = patterns.entry_of_kind(LineKind::CustomError, line) {
        return entry;
    }
    LogEntry::Other { message: line.to_owned() }
}

/// The characters of each line.
pub open spec fn line_texts(lines: Seq<String>) -> Seq<Seq<char>> {
    lines.map_values(|line: String| line@)
}

/// The entries of a list as mathematical values.
pub open spec fn entry_views(entries: Seq<LogEntry>) -> Seq<LogEntryView> {
    entries.map_values(|e: LogEntry| e@)
}

pub fn parse_logs(patterns: &LogPatterns, logs: &[String]) -> (entries: Vec<LogEntry>)
    ensures
        entry_views(entries@) == classify_all(line_texts(logs@)),
{
    let mut entries: Vec<LogEntry> = Vec::new();
    let n: usize = logs.len();
    let mut i: usize = 0;
    while i < n
        invariant
            i <= n == logs.len(),
            entries.len() == i,
            forall|j: int| 0 <= j < i ==> (#[trigger] entries[j])@ == classify(logs[j]@),
        decreases n - i,
    {
        entries.push(parse_log_line(patterns, logs[i].as_str()));
        i += 1;
    }
    assert(entry_views(entries@) =~= classify_all(line_texts(logs@)));
    entries
}

} // verus!
