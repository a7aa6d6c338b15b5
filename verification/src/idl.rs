//! Interface descriptions of programs: what one holds, and how its text is
//! taken out of the account that stores it.

pub mod fetch;
pub mod parse;

pub use fetch::{get_idl_address, idl_json, IdlAccountError};
pub use parse::{Idl, IdlError, IdlMetadata};
