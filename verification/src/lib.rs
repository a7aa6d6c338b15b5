//! Decoding of numeric program error codes and of execution logs into
//! structured, attributed error records.

pub mod decoder;
pub mod idl;
pub mod input;
pub mod log_parser;
pub mod number;
pub mod output;
pub mod pattern;
pub mod report;
pub mod rpc;
pub mod scanner;
pub mod text;
