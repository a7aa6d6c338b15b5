//! The record that decoding produces.

use crate::number::{format_hex, hex_text};
use vstd::prelude::*;

verus! {

/// One decoded error: the code, its attribution, and what is known of its
/// meaning and origin.
///
/// The hexadecimal rendering always belongs to the code, and a source file
/// is recorded together with its line or not at all.
#[derive(Debug)]
pub struct DecodedError {
    program_id: String,
    error_code: u32,
    error_hex: String,
    error_name: Option<String>,
    error_message: Option<String>,
    source_file: Option<String>,
    source_line: Option<u32>,
    cpi_depth: Option<u8>,
}

/// A [`DecodedError`] as a mathematical value.
pub struct DecodedErrorView {
    /// The program the error is attributed to; empty when unattributed.
    pub program_id: Seq<char>,
    pub error_code: u32,
    pub error_hex: Seq<char>,
    pub error_name: Option<Seq<char>>,
    pub error_message: Option<Seq<char>>,
    pub source_file: Option<Seq<char>>,
    pub source_line: Option<u32>,
    /// The call depth at which the error occurred; 0 is the outermost call.
    pub cpi_depth: Option<u8>,
}

/// The characters of an optional string.
pub open spec fn text_of(s: Option<String>) -> Option<Seq<char>> {
    match s {
        Some(s) => Some(s@),
        None => None,
    }
}

impl DecodedErrorView {
    /// The bare record of a code: unattributed, with nothing known of it.
    pub open spec fn new(code: u32) -> DecodedErrorView {
        DecodedErrorView {
            program_id: Seq::empty(),
            error_code: code,
            error_hex: hex_text(code),
            error_name: None,
            error_message: None,
            source_file: None,
            source_line: None,
            cpi_depth: None,
        }
    }

    pub open spec fn with_program(self, program_id: Seq<char>) -> DecodedErrorView {
        DecodedErrorView { program_id, ..self }
    }

    pub open spec fn with_name(self, name: Seq<char>) -> DecodedErrorView {
        DecodedErrorView { error_name: Some(name), ..self }
    }

    pub open spec fn with_message(self, message: Seq<char>) -> DecodedErrorView {
        DecodedErrorView { error_message: Some(message), ..self }
    }

    pub open spec fn with_source(self, file: Seq<char>, line: u32) -> DecodedErrorView {
        DecodedErrorView { source_file: Some(file), source_line: Some(line), ..self }
    }

    pub open spec fn with_cpi_depth(self, depth: u8) -> DecodedErrorView {
        DecodedErrorView { cpi_depth: Some(depth), ..self }
    }

    /// What holds of every record: the rendering is that of the code, and
    /// file and line come together.
    pub open spec fn consistent(self) -> bool {
        &&& self.error_hex == hex_text(self.error_code)
        &&& self.source_file is Some <==> self.source_line is Some
    }
}

impl View for DecodedError {
    type V = DecodedErrorView;

    closed spec fn view(&self) -> DecodedErrorView {
        DecodedErrorView {
            program_id: self.program_id@,
            error_code: self.error_code,
            error_hex: self.error_hex@,
            error_name: text_of(self.error_name),
            error_message: text_of(self.error_message),
            source_file: text_of(self.source_file),
            source_line: self.source_line,
            cpi_depth: self.cpi_depth,
        }
    }
}

impl DecodedError {
    #[verifier::type_invariant]
    spec fn consistent(self) -> bool {
        self@.consistent()
    }

    pub fn new(code: u32) -> (r: DecodedError)
        ensures
            r@ == DecodedErrorView::new(code),
    {
        DecodedError {
            program_id: String::new(),
            error_code: code,
            error_hex: format_hex(code),
            error_name: None,
            error_message: None,
            source_file: None,
            source_line: None,
            cpi_depth: None,
        }
    }

    pub fn with_program(self, program_id: String) -> (r: DecodedError)
        ensures
            r@ == self@.with_program(program_id@),
    {
        proof {
            use_type_invariant(&self);
        }
        let mut r = self;
        r.program_id = program_id;
        r
    }

    pub fn with_name(self, name: String) -> (r: DecodedError)
        ensures
            r@ == self@.with_name(name@),
    {
        proof {
            use_type_invariant(&self);
        }
        let mut r = self;
        r.error_name = Some(name);
        r
    }

    pub fn with_message(self, message: String) -> (r: DecodedError)
        ensures
            r@ == self@.with_message(message@),
    {
        proof {
            use_type_invariant(&self);
        }
        let mut r = self;
        r.error_message = Some(message);
        r
    }

    pub fn with_source(self, file: String, line: u32) -> (r: DecodedError)
        ensures
            r@ == self@.with_source(file@, line),
    {
        proof {
            use_type_invariant(&self);
        }
        DecodedError { source_file: Some(file), source_line: Some(line), ..self }
    }

    pub fn with_cpi_depth(self, depth: u8) -> (r: DecodedError)
        ensures
            r@ == self@.with_cpi_depth(depth),
    {
        proof {
            use_type_invariant(&self);
        }
        let mut r = self;
        r.cpi_depth = Some(depth);
        r
    }
}

impl DecodedError {
    /// The program the error is attributed to; empty when unattributed.
    pub fn program_id(&self) -> (r: &String)
        ensures
            r@ == self@.program_id,
    {
        &self.program_id
    }

    pub fn error_code(&self) -> (r: u32)
        ensures
            r == self@.error_code,
    {
        self.error_code
    }

    /// The code in hexadecimal: `0x` and its lower-case digits, whatever
    /// else the record holds.
    pub fn error_hex(&self) -> (r: &String)
        ensures
            r@ == self@.error_hex,
            r@ == hex_text(self@.error_code),
    {
        proof {
            use_type_invariant(self);
        }
        &self.error_hex
    }

    pub fn error_name(&self) -> (r: &Option<String>)
        ensures
            text_of(*r) == self@.error_name,
    {
        &self.error_name
    }

    pub fn error_message(&self) -> (r: &Option<String>)
        ensures
            text_of(*r) == self@.error_message,
    {
        &self.error_message
    }

    /// The source file, present exactly when the line is.
    pub fn source_file(&self) -> (r: &Option<String>)
        ensures
            text_of(*r) == self@.source_file,
            r is Some <==> self@.source_line is Some,
    {
        proof {
            use_type_invariant(self);
        }
        &self.source_file
    }

    /// The source line, present exactly when the file is.
    pub fn source_line(&self) -> (r: Option<u32>)
        ensures
            r == self@.source_line,
            r is Some <==> self@.source_file is Some,
    {
        proof {
            use_type_invariant(self);
        }
        self.source_line
    }

    /// The call depth at which the error occurred; 0 is the outermost call.
    pub fn cpi_depth(&self) -> (r: Option<u8>)
        ensures
            r == self@.cpi_depth,
    {
        self.cpi_depth
    }
}

impl Clone for DecodedError {
    fn clone(&self) -> (r: DecodedError)
        ensures
            r@ == self@,
    {
        proof {
            use_type_invariant(self);
        }
        DecodedError {
            program_id: self.program_id.clone(),
            error_code: self.error_code,
            error_hex: self.error_hex.clone(),
            error_name: self.error_name.clone(),
            error_message: self.error_message.clone(),
            source_file: self.source_file.clone(),
            source_line: self.source_line,
            cpi_depth: self.cpi_depth,
        }
    }
}

} // verus!
