//! From a code to what it means: the sources of knowledge are asked in a
//! fixed order, and the first that knows the code answers.

pub mod anchor;
pub mod program_id;
pub mod registry;

pub use program_id::{parse_program_id, ProgramIdError};

use crate::decoder::anchor::{anchor_custom, decode_anchor_custom, is_anchor_custom_error};
use crate::decoder::anchor::ANCHOR_ERROR_OFFSET;
use crate::decoder::registry::{anchor_error, find_entry, find_program, program_error};
use crate::decoder::registry::{lookup_anchor_error, lookup_program_error};
use crate::decoder::registry::{ErrorDatabase, ErrorDatabaseView, ErrorEntryView};
use crate::number::hex_text;
use crate::output::{DecodedError, DecodedErrorView};
use vstd::prelude::*;
use vstd::string::StringExecFns;

verus! {

/// The characters of an optional string slice.
pub open spec fn slice_text(s: Option<&str>) -> Option<Seq<char>> {
    match s {
        Some(s) => Some(s@),
        None => None,
    }
}

/// `error`, attributed to `program` where one is given.
pub open spec fn attributed(error: DecodedErrorView, program: Option<Seq<char>>) -> DecodedErrorView {
    match program {
        Some(p) => error.with_program(p),
        None => error,
    }
}

/// The record of a code of which nothing is known.
pub open spec fn unknown_error(code: u32) -> DecodedErrorView {
    DecodedErrorView::new(code).with_name("Unknown"@).with_message("Unknown error code"@)
}

/// What a code means, given the program it came from if that is known.
///
/// A reserved code that the framework's list knows is the framework's. Else
/// the program's own list is asked. Else a code at or above the threshold is
/// described by the index of its variant, and any other is unknown.
pub open spec fn resolve(db: ErrorDatabaseView, code: u32, program: Option<Seq<char>>) -> DecodedErrorView {
    if code < ANCHOR_ERROR_OFFSET && anchor_error(db, code) is Some {
        anchor_error(db, code)->0
    } else if program is Some && program_error(db, program->0, code) is Some {
        program_error(db, program->0, code)->0
    } else if code >= ANCHOR_ERROR_OFFSET {
        attributed(anchor_custom(code), program)
    } else {
        attributed(unknown_error(code), program)
    }
}

pub fn decode_error(db: &ErrorDatabase, code: u32, program_id: Option<&str>) -> (r: DecodedError)
    ensures
        r@ == resolve(db@, code, slice_text(program_id)),
        r@.error_code == code,
        r@.error_hex == hex_text(code),
{
    proof {
        lemma_resolve_keeps_code(db@, code, slice_text(program_id));
    }
    if code < 6000 {
        if let Some(anchor_err) = lookup_anchor_error(db, code) {
            return anchor_err;
        }
    }
    if let Some(pid) = program_id {
        if let Some(known_err) = lookup_program_error(db, pid, code) {
            return known_err;
        }
    }
    if is_anchor_custom_error(code) {
        let error = decode_anchor_custom(code);
        return match program_id {
            Some(pid) => error.with_program(String::from_str(pid)),
            None => error,
        };
    }
    let error = DecodedError::new(code).with_name(String::from_str("Unknown")).with_message(
        String::from_str("Unknown error code"),
    );
    match program_id {
        Some(pid) => error.with_program(String::from_str(pid)),
        None => error,
    }
}

/// An entry found under a code has that code.
pub proof fn lemma_found_entry_has_code(errors: Seq<ErrorEntryView>, code: u32)
    ensures
        find_entry(errors, code) matches Some(entry) ==> entry.code == code,
    decreases errors.len(),
{
    if errors.len() > 0 && errors.first().code != code {
        lemma_found_entry_has_code(errors.drop_first(), code);
    }
}

/// Whatever source answers, the record is that of the code asked for: it
/// holds the code, and its rendering in hexadecimal.
pub proof fn lemma_resolve_keeps_code(db: ErrorDatabaseView, code: u32, program: Option<Seq<char>>)
    ensures
        resolve(db, code, program).error_code == code,
        resolve(db, code, program).error_hex == hex_text(code),
        resolve(db, code, program).consistent(),
{
    lemma_found_entry_has_code(db.anchor_errors, code);
    if let Some(p) = program {
        if let Some(found) = find_program(db.programs, p) {
            lemma_found_entry_has_code(found.errors, code);
        }
    }
}

} // verus!
