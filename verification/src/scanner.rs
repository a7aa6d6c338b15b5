//! From the log of one execution to the errors that occurred in it. The
//! lines are read in order; an invocation sets the program and the call depth
//! that later errors are tagged with.

use crate::decoder::registry::{error_views, ErrorDatabase, ErrorDatabaseView};
use crate::decoder::{attributed, decode_error, lemma_resolve_keeps_code, resolve};
use crate::log_parser::{classify_all, entry_views, line_texts, parse_logs};
use crate::log_parser::{LogEntry, LogEntryView, LogPatterns};
use crate::number::{parse_number, parse_unsigned};
use crate::output::{text_of, DecodedError, DecodedErrorView};
use crate::text::{chars_of, has_prefix_at};
use vstd::prelude::*;

verus! {

/// What the scan remembers from one line to the next: the program and the
/// call depth of the last invocation seen.
#[derive(Debug)]
pub struct ScanState {
    pub program: Option<String>,
    pub depth: u8,
}

/// A [`ScanState`] as a mathematical value.
pub struct ScanStateView {
    pub program: Option<Seq<char>>,
    pub depth: u8,
}

impl View for ScanState {
    type V = ScanStateView;

    open spec fn view(&self) -> ScanStateView {
        ScanStateView { program: text_of(self.program), depth: self.depth }
    }
}

/// Why a scan gave nothing.
#[derive(Debug, Clone, Copy, PartialEq, Eq, Structural)]
pub enum ScanError {
    /// No line of the log held an error that can be decoded.
    NoErrorsFound,
}

/// The state before the first line: no program, depth 0.
pub open spec fn initial_state() -> ScanStateView {
    ScanStateView { program: None, depth: 0 }
}

/// How a failure message begins when it carries a code.
pub open spec fn custom_error_prefix() -> Seq<char> {
    "custom program error: 0x"@
}

/// The code that hexadecimal digits from a log denote, or zero where they
/// denote none that 32 bits hold.
pub open spec fn hex_code_or_zero(digits: Seq<char>) -> u32 {
    match parse_unsigned(digits, 16, u32::MAX as nat) {
        Some(v) => v as u32,
        None => 0,
    }
}

/// The state after an entry: an invocation sets program and depth, and
/// nothing else changes them.
pub open spec fn next_state(state: ScanStateView, entry: LogEntryView) -> ScanStateView {
    match entry {
        LogEntryView::Invoke { program_id, depth } => ScanStateView {
            program: Some(program_id),
            depth,
        },
        _ => state,
    }
}

/// The error that an entry gives rise to in a state, if any, tagged with the
/// depth of that state.
///
/// An error that the framework reported in full is taken as it stands and
/// attributed to the program of the state. A bare code is resolved for the
/// program of the state. A failure whose message carries a code is resolved
/// for the program that failed; any other failure gives nothing.
pub open spec fn emitted(db: ErrorDatabaseView, state: ScanStateView, entry: LogEntryView) -> Option<
    DecodedErrorView,
> {
    match entry {
        LogEntryView::AnchorError { file, line, code_name, code_number, message } => Some(
            attributed(
                DecodedErrorView::new(code_number).with_name(code_name).with_message(
                    message,
                ).with_source(file, line).with_cpi_depth(state.depth),
                state.program,
            ),
        ),
        LogEntryView::CustomError { hex_code } => Some(
            resolve(db, hex_code_or_zero(hex_code), state.program).with_cpi_depth(state.depth),
        ),
        LogEntryView::Failed { program_id, error } => if custom_error_prefix().is_prefix_of(error) {
            Some(
                resolve(
                    db,
                    hex_code_or_zero(
                        error.subrange(custom_error_prefix().len() as int, error.len() as int),
                    ),
                    Some(program_id),
                ).with_cpi_depth(state.depth),
            )
        } else {
            None
        },
        _ => None,
    }
}

/// The state after all of `entries`, starting from `state`.
pub open spec fn state_after(state: ScanStateView, entries: Seq<LogEntryView>) -> ScanStateView
    decreases entries.len(),
{
    if entries.len() == 0 {
        state
    } else {
        next_state(state_after(state, entries.drop_last()), entries.last())
    }
}

/// The errors of `entries`, in order: those of all but the last entry, and
/// then what the last gives rise to in the state that the others leave.
pub open spec fn errors_of(db: ErrorDatabaseView, entries: Seq<LogEntryView>) -> Seq<
    DecodedErrorView,
>
    decreases entries.len(),
{
    if entries.len() == 0 {
        Seq::empty()
    } else {
        let before = entries.drop_last();
        match emitted(db, state_after(initial_state(), before), entries.last()) {
            Some(error) => errors_of(db, before).push(error),
            None => errors_of(db, before),
        }
    }
}

/// The errors of a log, given line by line.
pub open spec fn scan_lines(db: ErrorDatabaseView, lines: Seq<Seq<char>>) -> Seq<DecodedErrorView> {
    errors_of(db, classify_all(lines))
}

/// The view of an optional record.
pub open spec fn error_view(error: Option<DecodedError>) -> Option<DecodedErrorView> {
    match error {
        Some(e) => Some(e@),
        None => None,
    }
}

/// A log without lines has no errors.
pub proof fn lemma_no_lines_no_errors(db: ErrorDatabaseView)
    ensures
        scan_lines(db, Seq::empty()) == Seq::<DecodedErrorView>::empty(),
{
    assert(classify_all(Seq::empty()) =~= Seq::empty());
}

/// A bare code that follows an invocation is resolved for the program that
/// was invoked and tagged with the depth of the invocation, whatever came
/// before the two.
pub proof fn lemma_code_after_invoke(
    db: ErrorDatabaseView,
    before: Seq<LogEntryView>,
    program_id: Seq<char>,
    depth: u8,
    hex_code: Seq<char>,
)
    ensures
        errors_of(
            db,
            before.push(LogEntryView::Invoke { program_id, depth }).push(
                LogEntryView::CustomError { hex_code },
            ),
        ) == errors_of(db, before).push(
            resolve(db, hex_code_or_zero(hex_code), Some(program_id)).with_cpi_depth(depth),
        ),
{
    let invoke = LogEntryView::Invoke { program_id, depth };
    let code = LogEntryView::CustomError { hex_code };
    let with_invoke = before.push(invoke);
    let all = with_invoke.push(code);
    assert(all.drop_last() =~= with_invoke);
    assert(with_invoke.drop_last() =~= before);
    assert(state_after(initial_state(), with_invoke) == ScanStateView {
        program: Some(program_id),
        depth,
    });
    assert(errors_of(db, with_invoke) == errors_of(db, before));
}

/// Every error of a log carries a call depth, and its rendering is that of
/// its code.
pub proof fn lemma_errors_are_tagged(db: ErrorDatabaseView, entries: Seq<LogEntryView>)
    ensures
        forall|i: int|
            0 <= i < errors_of(db, entries).len() ==> {
                let error = #[trigger] errors_of(db, entries)[i];
                error.cpi_depth is Some && error.consistent()
            },
    decreases entries.len(),
{
    if entries.len() > 0 {
        let before = entries.drop_last();
        let state = state_after(initial_state(), before);
        lemma_errors_are_tagged(db, before);
        match entries.last() {
            LogEntryView::CustomError { hex_code } => {
                lemma_resolve_keeps_code(db, hex_code_or_zero(hex_code), state.program);
            },
            LogEntryView::Failed { program_id, error } => {
                lemma_resolve_keeps_code(
                    db,
                    hex_code_or_zero(
                        error.subrange(custom_error_prefix().len() as int, error.len() as int),
                    ),
                    Some(program_id),
                );
            },
            _ => {},
        }
    }
}

impl ScanState {
    pub fn new() -> (state: ScanState)
        ensures
            state@ == initial_state(),
    {
        ScanState { program: None, depth: 0 }
    }
}

/// Reads hexadecimal digits from a log as a code, zero where they are none.
pub fn hex_code(chars: &Vec<char>, start: usize, end: usize) -> (code: u32)
    requires
        start <= end <= chars.len(),
    ensures
        code == hex_code_or_zero(chars@.subrange(start as int, end as int)),
{
    match parse_number(chars, start, end, 16, u32::MAX as u64) {
        Some(v) => v as u32,
        None => 0,
    }
}

/// Takes one entry: moves the state on, and hands out the error that the
/// entry gives rise to, if any.
pub fn scan_step(db: &ErrorDatabase, state: &mut ScanState, entry: &LogEntry) -> (r: Option<
    DecodedError,
>)
    ensures
        final(state)@ == next_state(old(state)@, entry@),
        error_view(r) == emitted(db@, old(state)@, entry@),
{
    match entry {
        LogEntry::Invoke { program_id, depth } => {
            state.program = Some(program_id.clone());
            state.depth = *depth;
            None
        },
        LogEntry::AnchorError { file, line, code_name, code_number, message } => {
            let error = DecodedError::new(*code_number).with_name(code_name.clone()).with_message(
                message.clone(),
            ).with_source(file.clone(), *line).with_cpi_depth(state.depth);
            match &state.program {
                Some(pid) => Some(error.with_program(pid.clone())),
                None => Some(error),
            }
        },
        LogEntry::CustomError { hex_code: digits } => {
            let chars = chars_of(digits.as_str());
            assert(chars@.subrange(0, chars.len() as int) =~= chars@);
            let code = hex_code(&chars, 0, chars.len());
            let error = match &state.program {
                Some(pid) => decode_error(db, code, Some(pid.as_str())),
                None => decode_error(db, code, None),
            };
            Some(error.with_cpi_depth(state.depth))
        },
        LogEntry::Failed { program_id, error: message } => {
            let chars = chars_of(message.as_str());
            let prefix = chars_of("custom program error: 0x");
            assert(chars@.subrange(0, chars.len() as int) =~= chars@);
            if has_prefix_at(&chars, 0, &prefix) {
                let code = hex_code(&chars, prefix.len(), chars.len());
                let error = decode_error(db, code, Some(program_id.as_str()));
                Some(error.with_cpi_depth(state.depth))
            } else {
                None
            }
        },
        _ => None,
    }
}

/// The errors of a list of entries, in order.
pub fn scan_entries(db: &ErrorDatabase, entries: &[LogEntry]) -> (errors: Vec<DecodedError>)
    ensures
        error_views(errors@) == errors_of(db@, entry_views(entries@)),
{
    let ghost all = entry_views(entries@);
    let mut errors: Vec<DecodedError> = Vec::new();
    let mut state = ScanState::new();
    let n: usize = entries.len();
    let mut i: usize = 0;
    assert(error_views(errors@) =~= Seq::<DecodedErrorView>::empty());
    while i < n
        invariant
            i <= n == entries.len(),
            all == entry_views(entries@),
            state@ == state_after(initial_state(), all.take(i as int)),
            error_views(errors@) == errors_of(db@, all.take(i as int)),
        decreases n - i,
    {
        let ghost before = error_views(errors@);
        proof {
            assert(all.take(i + 1).drop_last() =~= all.take(i as int));
            assert(all.take(i + 1).last() == entries[i as int]@);
        }
        match scan_step(db, &mut state, &entries[i]) {
            Some(error) => {
                errors.push(error);
                assert(error_views(errors@) =~= before.push(error@));
            },
            None => {},
        }
        i += 1;
    }
    assert(all.take(n as int) =~= all);
    errors
}

/// Reads a log and gives the errors that occurred, in order. A log without
/// any is an error of its own.
pub fn scan(patterns: &LogPatterns, db: &ErrorDatabase, logs: &[String]) -> (r: Result<
    Vec<DecodedError>,
    ScanError,
>)
    ensures
        match r {
            Ok(errors) => errors.len() > 0 && error_views(errors@) == scan_lines(
                db@,
                line_texts(logs@),
            ),
            Err(e) => e == ScanError::NoErrorsFound && scan_lines(db@, line_texts(logs@)).len()
                == 0,
        },
{
    let entries = parse_logs(patterns, logs);
    let errors = scan_entries(db, entries.as_slice());
    if errors.len() == 0 {
        Err(ScanError::NoErrorsFound)
    } else {
        Ok(errors)
    }
}

} // verus!
