//! The account that stores a description: its address is derived from the
//! program's identifier, and it holds a header of fixed length, then the
//! description's text, compressed.

use solana_sdk::pubkey::Pubkey;
use std::io::Read;
use vstd::prelude::*;
use vstd::slice::{slice_subrange, slice_to_vec};
use vstd::string::StringSliceAdditionalSpecFns;

verus! {

/// What `Pubkey::try_find_program_address` derives from seeds and a
/// program's identifier: an address that no key can sign for, with the bump
/// that gave it, or nothing where there is none.
pub uninterp spec fn derived_address(seeds: Seq<Seq<u8>>, program_id: Seq<u8>) -> Option<
    (Seq<u8>, u8),
>;

/// The bytes of each seed.
pub open spec fn seed_bytes(seeds: Seq<Vec<u8>>) -> Seq<Seq<u8>> {
    seeds.map_values(|seed: Vec<u8>| seed@)
}

/// Calls `Pubkey::try_find_program_address` of `solana_sdk`, with keys taken
/// and handed out as their bytes. What is derived depends on the seeds and
/// the identifier alone; the contract says no more than that.
#[verifier::external_body]
fn find_address(seeds: &Vec<Vec<u8>>, program_id: &[u8; 32]) -> (r: Option<([u8; 32], u8)>)
    ensures
        r matches Some(found) ==> derived_address(seed_bytes(seeds@), program_id@) == Some(
            (found.0@, found.1),
        ),
        r is None ==> derived_address(seed_bytes(seeds@), program_id@) is None,
{
    let parts: Vec<&[u8]> = seeds.iter().map(|seed| seed.as_slice()).collect();
    let program = Pubkey::new_from_array(*program_id);
    Pubkey::try_find_program_address(&parts, &program).map(|(key, bump)| (key.to_bytes(), bump))
}

/// The seed under which the account of a program's description is derived.
pub const IDL_SEED: &'static str = "anchor:idl";

/// The address of the account that stores the description of the program
/// `program_id`: derived from the seed and the identifier, for that program.
pub open spec fn idl_address(program_id: Seq<u8>) -> Option<Seq<u8>> {
    match derived_address(seq![IDL_SEED.spec_bytes(), program_id], program_id) {
        Some(found) => Some(found.0),
        None => None,
    }
}

pub fn get_idl_address(program_id: &[u8; 32]) -> (r: Option<[u8; 32]>)
    ensures
        r matches Some(address) ==> idl_address(program_id@) == Some(address@),
        r is None ==> idl_address(program_id@) is None,
{
    let mut seeds: Vec<Vec<u8>> = Vec::new();
    seeds.push(slice_to_vec(IDL_SEED.as_bytes()));
    seeds.push(slice_to_vec(program_id.as_slice()));
    assert(seed_bytes(seeds@) =~= seq![IDL_SEED.spec_bytes(), program_id@]);
    match find_address(&seeds, program_id) {
        Some(found) => Some(found.0),
        None => None,
    }
}

/// `std::io::Error`, the reason why reading failed. It is handed on, never
/// looked into.
#[verifier::external_type_specification]
#[verifier::external_body]
pub struct ExIoError(std::io::Error);

/// The bytes before the compressed text: 8 of discriminator, 32 of
/// authority, 4 of length.
pub const IDL_HEADER_LEN: usize = 44;

/// Why an account gives no description.
#[derive(Debug, Clone, Copy, PartialEq, Eq, Structural)]
pub enum IdlAccountError {
    /// The account is shorter than its header.
    TooShort,
    /// What follows the header is no compressed text.
    Decompress,
}

/// What `flate2::read::ZlibDecoder` reads out of `data` as text: nothing
/// where it reports an error, among them a result that is not UTF-8.
pub uninterp spec fn zlib_text(data: Seq<u8>) -> Option<Seq<char>>;

/// Makes a `flate2::read::ZlibDecoder` over `data` and reads it to its end
/// with `read_to_string`. What comes out depends on the bytes alone; the
/// contract says no more than that.
#[verifier::external_body]
fn inflate_text(data: &[u8]) -> (r: Result<String, std::io::Error>)
    ensures
        r matches Ok(text) ==> zlib_text(data@) == Some(text@),
        r is Err ==> zlib_text(data@) is None,
{
    let mut text = String::new();
    let mut decoder = flate2::read::ZlibDecoder::new(data);
    decoder.read_to_string(&mut text).map(|_| text)
}

/// The text of the description that an account with the contents `data`
/// stores.
pub open spec fn account_text(data: Seq<u8>) -> Result<Seq<char>, IdlAccountError> {
    if data.len() < IDL_HEADER_LEN {
        Err(IdlAccountError::TooShort)
    } else {
        match zlib_text(data.subrange(IDL_HEADER_LEN as int, data.len() as int)) {
            Some(text) => Ok(text),
            None => Err(IdlAccountError::Decompress),
        }
    }
}

/// Takes the text of the description out of an account's data.
pub fn idl_json(data: &[u8]) -> (r: Result<String, IdlAccountError>)
    ensures
        match r {
            Ok(text) => account_text(data@) == Ok::<Seq<char>, IdlAccountError>(text@),
            Err(e) => account_text(data@) == Err::<Seq<char>, IdlAccountError>(e),
        },
{
    if data.len() < IDL_HEADER_LEN {
        return Err(IdlAccountError::TooShort);
    }
    let compressed = slice_subrange(data, IDL_HEADER_LEN, data.len());
    match inflate_text(compressed) {
        Ok(text) => Ok(text),
        Err(_) => Err(IdlAccountError::Decompress),
    }
}

} // verus!
