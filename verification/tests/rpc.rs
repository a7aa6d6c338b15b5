use ohsol::decoder::registry::ErrorDatabase;
use ohsol::log_parser::LogPatterns;
use ohsol::rpc::{
    get_rpc_url, transaction_errors, transaction_signature, SignatureError, TransactionError, TransactionMeta,
    DEFAULT_RPC_URL,
};

fn patterns() -> LogPatterns {
    LogPatterns::new().unwrap()
}

#[test]
fn signature_of_zeros() {
    let text = "1".repeat(64);
    assert_eq!(transaction_signature(&text), Ok([0u8; 64]));
}

#[test]
fn signature_reads_as_the_library_writes_it() {
    let mut bytes = [0u8; 64];
    for (i, byte) in bytes.iter_mut().enumerate() {
        *byte = (i as u8).wrapping_mul(37).wrapping_add(11);
    }
    let text = solana_sdk::signature::Signature::from(bytes).to_string();
    assert_eq!(transaction_signature(&text), Ok(bytes));
}

#[test]
fn signature_of_the_wrong_size() {
    assert_eq!(
        transaction_signature(""),
        Err(TransactionError::InvalidSignature(SignatureError::WrongSize))
    );
    assert_eq!(
        transaction_signature("11111111111111111111111111111111"),
        Err(TransactionError::InvalidSignature(SignatureError::WrongSize))
    );
    assert_eq!(
        transaction_signature(&"1".repeat(89)),
        Err(TransactionError::InvalidSignature(SignatureError::WrongSize))
    );
}

#[test]
fn signature_with_a_foreign_character() {
    let mut text = "1".repeat(63);
    text.push('0');
    assert_eq!(
        transaction_signature(&text),
        Err(TransactionError::InvalidSignature(SignatureError::Invalid))
    );
}

#[test]
fn transaction_without_metadata() {
    let r = transaction_errors(&patterns(), &ErrorDatabase::new(), None);
    assert_eq!(r.unwrap_err(), TransactionError::NoMetadata);
}

#[test]
fn transaction_without_a_log() {
    let meta = TransactionMeta { log_messages: None };
    let r = transaction_errors(&patterns(), &ErrorDatabase::new(), Some(meta));
    assert_eq!(r.unwrap_err(), TransactionError::NoErrorsFound);
}

#[test]
fn transaction_with_a_clean_log() {
    let meta = TransactionMeta {
        log_messages: Some(vec![
            "Program 11111111111111111111111111111111 invoke [1]".to_string(),
            "Program 11111111111111111111111111111111 success".to_string(),
        ]),
    };
    let r = transaction_errors(&patterns(), &ErrorDatabase::new(), Some(meta));
    assert_eq!(r.unwrap_err(), TransactionError::NoErrorsFound);
}

#[test]
fn transaction_with_an_error_in_its_log() {
    let meta = TransactionMeta {
        log_messages: Some(vec![
            "Program 11111111111111111111111111111111 invoke [1]".to_string(),
            "Program 11111111111111111111111111111111 failed: custom program error: 0x1"
                .to_string(),
        ]),
    };
    let errors = transaction_errors(&patterns(), &ErrorDatabase::new(), Some(meta)).unwrap();
    assert_eq!(errors.len(), 1);
    assert_eq!(errors[0].error_code(), 1);
    assert_eq!(errors[0].program_id(), "11111111111111111111111111111111");
    assert_eq!(errors[0].cpi_depth(), Some(1));
    assert_eq!(errors[0].error_name().as_deref(), Some("Unknown"));
}

#[test]
fn endpoint_is_the_first_that_is_given() {
    let given = Some("http://localhost:8899".to_string());
    let env = Some("https://example.org".to_string());
    assert_eq!(get_rpc_url(given.clone(), env.clone()), "http://localhost:8899");
    assert_eq!(get_rpc_url(given, None), "http://localhost:8899");
    assert_eq!(get_rpc_url(None, env), "https://example.org");
    assert_eq!(get_rpc_url(None, None), "https://api.mainnet-beta.solana.com");
    assert_eq!(DEFAULT_RPC_URL, "https://api.mainnet-beta.solana.com");
}
