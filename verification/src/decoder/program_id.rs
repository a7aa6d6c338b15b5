//! Program identifiers: 32 bytes, written in Base58.

use solana_sdk::pubkey::{ParsePubkeyError, Pubkey};
use std::str::FromStr;
use vstd::prelude::*;

verus! {

/// Why a text is no program identifier.
#[derive(Debug, Clone, Copy, PartialEq, Eq, Structural)]
pub enum ProgramIdError {
    /// The text does not stand for 32 bytes.
    WrongSize,
    /// The text holds a character that Base58 does not have.
    Invalid,
}

/// What `Pubkey::from_str` makes of a text: the 32 bytes that it stands for
/// in Base58, or the reason why it stands for none.
pub uninterp spec fn program_id_of(text: Seq<char>) -> Result<Seq<u8>, ProgramIdError>;

/// The bytes of a key that was read, or the reason why none was.
pub open spec fn key_bytes(r: Result<[u8; 32], ProgramIdError>) -> Result<Seq<u8>, ProgramIdError> {
    match r {
        Ok(bytes) => Ok(bytes@),
        Err(e) => Err(e),
    }
}

/// Reads a program identifier. This is `Pubkey::from_str` of `solana_sdk`,
/// with the key handed out as its bytes and the error as one of this
/// library; what the text decodes to is that function's business and is
/// only named here.
#[verifier::external_body]
pub fn parse_program_id(input: &str) -> (r: Result<[u8; 32], ProgramIdError>)
    ensures
        key_bytes(r) == program_id_of(input@),
{
    match Pubkey::from_str(input) {
        Ok(key) => Ok(key.to_bytes()),
        Err(ParsePubkeyError::WrongSize) => Err(ProgramIdError::WrongSize),
        Err(ParsePubkeyError::Invalid) => Err(ProgramIdError::Invalid),
    }
}

} // verus!
