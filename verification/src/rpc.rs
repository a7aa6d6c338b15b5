//! What is decided around the request for a transaction: where to ask, what
//! to ask for, and what to make of the answer. The asking itself is the
//! caller's business.

use crate::decoder::registry::{error_views, ErrorDatabase, ErrorDatabaseView};
use crate::log_parser::{line_texts, LogPatterns};
use crate::output::{DecodedError, DecodedErrorView};
use crate::scanner::{scan, scan_lines};
use solana_sdk::signature::{ParseSignatureError, Signature};
use std::str::FromStr;
use vstd::prelude::*;

verus! {

/// The endpoint that is asked when none is named.
pub const DEFAULT_RPC_URL: &'static str = "https://api.mainnet-beta.solana.com";

/// The endpoint to ask: the one provided, else the one that the environment
/// names, else the default.
pub open spec fn rpc_url(provided: Option<String>, environment: Option<String>) -> Seq<char> {
    match provided {
        Some(url) => url@,
        None => match environment {
            Some(url) => url@,
            None => DEFAULT_RPC_URL@,
        },
    }
}

pub fn get_rpc_url(provided: Option<String>, environment: Option<String>) -> (url: String)
    ensures
        url@ == rpc_url(provided, environment),
{
    match provided {
        Some(url) => url,
        None => match environment {
            Some(url) => url,
            None => DEFAULT_RPC_URL.to_owned(),
        },
    }
}

/// Why a text is no signature.
#[derive(Debug, Clone, Copy, PartialEq, Eq, Structural)]
pub enum SignatureError {
    /// The text does not stand for 64 bytes.
    WrongSize,
    /// The text holds a character that Base58 does not have.
    Invalid,
}

/// Why a transaction gives no errors to show.
#[derive(Debug, Clone, Copy, PartialEq, Eq, Structural)]
pub enum TransactionError {
    /// What was given to name the transaction is no signature.
    InvalidSignature(SignatureError),
    /// The transaction came without metadata.
    NoMetadata,
    /// The log of the transaction holds no error that can be decoded.
    NoErrorsFound,
}

/// What `Signature::from_str` makes of a text: the 64 bytes that it stands
/// for in Base58, or the reason why it stands for none.
pub uninterp spec fn signature_of(text: Seq<char>) -> Result<Seq<u8>, SignatureError>;

/// The bytes of a signature that was read, or the reason why none was.
pub open spec fn signature_bytes(r: Result<[u8; 64], SignatureError>) -> Result<
    Seq<u8>,
    SignatureError,
> {
    match r {
        Ok(bytes) => Ok(bytes@),
        Err(e) => Err(e),
    }
}

/// Calls `Signature::from_str` of `solana_sdk`, with the signature handed
/// out as its bytes and the error as one of this library. What the text
/// decodes to is that function's business and is only named here.
#[verifier::external_body]
fn signature_from_text(input: &str) -> (r: Result<[u8; 64], SignatureError>)
    ensures
        signature_bytes(r) == signature_of(input@),
{
    match Signature::from_str(input) {
        Ok(signature) => Ok(signature.into()),
        Err(ParseSignatureError::WrongSize) => Err(SignatureError::WrongSize),
        Err(ParseSignatureError::Invalid) => Err(SignatureError::Invalid),
    }
}

/// The signature to ask for, given the text that names the transaction.
pub open spec fn requested_signature(text: Seq<char>) -> Result<Seq<u8>, TransactionError> {
    match signature_of(text) {
        Ok(bytes) => Ok(bytes),
        Err(e) => Err(TransactionError::InvalidSignature(e)),
    }
}

/// Reads the text that names a transaction, before anything is asked.
pub fn transaction_signature(text: &str) -> (r: Result<[u8; 64], TransactionError>)
    ensures
        match r {
            Ok(bytes) => requested_signature(text@) == Ok::<Seq<u8>, TransactionError>(bytes@),
            Err(e) => requested_signature(text@) == Err::<Seq<u8>, TransactionError>(e),
        },
{
    match signature_from_text(text) {
        Ok(bytes) => Ok(bytes),
        Err(e) => Err(TransactionError::InvalidSignature(e)),
    }
}

/// What of a transaction's metadata matters here: the lines of its log, if
/// it came with any.
#[derive(Debug)]
pub struct TransactionMeta {
    pub log_messages: Option<Vec<String>>,
}

impl View for TransactionMeta {
    type V = Seq<Seq<char>>;

    /// The lines of the log; a transaction without a log has none.
    open spec fn view(&self) -> Seq<Seq<char>> {
        match self.log_messages {
            Some(logs) => line_texts(logs@),
            None => Seq::empty(),
        }
    }
}

/// The errors of a transaction, given its metadata if it came with any: it
/// must have metadata, and its log an error that can be decoded.
pub open spec fn errors_of_transaction(db: ErrorDatabaseView, meta: Option<Seq<Seq<char>>>) -> Result<
    Seq<DecodedErrorView>,
    TransactionError,
> {
    match meta {
        None => Err(TransactionError::NoMetadata),
        Some(lines) => if scan_lines(db, lines).len() == 0 {
            Err(TransactionError::NoErrorsFound)
        } else {
            Ok(scan_lines(db, lines))
        },
    }
}

/// The view of optional metadata.
pub open spec fn meta_view(meta: Option<TransactionMeta>) -> Option<Seq<Seq<char>>> {
    match meta {
        Some(m) => Some(m@),
        None => None,
    }
}

/// Makes the errors of a transaction out of the answer to the request.
pub fn transaction_errors(
    patterns: &LogPatterns,
    db: &ErrorDatabase,
    meta: Option<TransactionMeta>,
) -> (r: Result<Vec<DecodedError>, TransactionError>)
    ensures
        match r {
            Ok(errors) => errors_of_transaction(db@, meta_view(meta)) == Ok::<
                Seq<DecodedErrorView>,
                TransactionError,
            >(error_views(errors@)),
            Err(e) => errors_of_transaction(db@, meta_view(meta)) == Err::<
                Seq<DecodedErrorView>,
                TransactionError,
            >(e),
        },
{
    let meta = match meta {
        Some(meta) => meta,
        None => {
            return Err(TransactionError::NoMetadata);
        },
    };
    let logs: Vec<String> = match meta.log_messages {
        Some(logs) => logs,
        None => Vec::new(),
    };
    assert(meta.log_messages is None ==> line_texts(logs@) =~= Seq::<Seq<char>>::empty());
    match scan(patterns, db, logs.as_slice()) {
        Ok(errors) => Ok(errors),
        Err(_) => Err(TransactionError::NoErrorsFound),
    }
}

} // verus!
