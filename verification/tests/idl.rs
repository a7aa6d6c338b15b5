use flate2::write::ZlibEncoder;
use flate2::Compression;
use ohsol::idl::fetch::IDL_HEADER_LEN;
use ohsol::idl::{idl_json, Idl, IdlAccountError, IdlError, IdlMetadata};
use std::io::Write;

fn compressed(text: &[u8]) -> Vec<u8> {
    let mut encoder = ZlibEncoder::new(Vec::new(), Compression::default());
    encoder.write_all(text).unwrap();
    encoder.finish().unwrap()
}

fn account(payload: &[u8]) -> Vec<u8> {
    let mut data = vec![0u8; 44];
    data.extend_from_slice(payload);
    data
}

fn legacy() -> Idl {
    Idl {
        address: String::new(),
        metadata: None,
        name: "old_program".to_string(),
        version: "0.1.0".to_string(),
        errors: vec![IdlError { code: 6000, name: "Bad".to_string(), msg: String::new() }],
    }
}

fn modern() -> Idl {
    Idl {
        address: "JUP6LkbZbjS1jKKwapdHNy74zcZ3tLUZoi5QNyVTaV4".to_string(),
        metadata: Some(IdlMetadata {
            name: "new_program".to_string(),
            version: "0.30.1".to_string(),
            spec: "0.1.0".to_string(),
        }),
        name: String::new(),
        version: String::new(),
        errors: Vec::new(),
    }
}

#[test]
fn header_is_forty_four_bytes() {
    assert_eq!(IDL_HEADER_LEN, 44);
}

#[test]
fn short_account_is_refused() {
    assert_eq!(idl_json(&[]), Err(IdlAccountError::TooShort));
    assert_eq!(idl_json(&[0u8; 43]), Err(IdlAccountError::TooShort));
}

#[test]
fn header_alone_does_not_decompress() {
    assert_eq!(idl_json(&[0u8; 44]), Err(IdlAccountError::Decompress));
}

#[test]
fn garbage_does_not_decompress() {
    assert_eq!(idl_json(&account(b"{\"name\":\"x\"}")), Err(IdlAccountError::Decompress));
}

#[test]
fn text_that_is_not_utf8_is_refused() {
    assert_eq!(idl_json(&account(&compressed(&[0xff, 0xfe]))), Err(IdlAccountError::Decompress));
}

#[test]
fn compressed_text_comes_out() {
    let json = "{\"name\":\"program\",\"version\":\"0.1.0\",\"errors\":[]}";
    assert_eq!(idl_json(&account(&compressed(json.as_bytes()))), Ok(json.to_string()));
    assert_eq!(idl_json(&account(&compressed(b""))), Ok(String::new()));
}

#[test]
fn header_bytes_do_not_matter() {
    let mut data = account(&compressed("h\u{e9}llo".as_bytes()));
    for (i, byte) in data.iter_mut().take(44).enumerate() {
        *byte = i as u8;
    }
    assert_eq!(idl_json(&data), Ok("h\u{e9}llo".to_string()));
}

#[test]
fn formats_are_told_apart() {
    assert!(!legacy().is_modern_format());
    assert!(modern().is_modern_format());
    let mut without_address = modern();
    without_address.address = String::new();
    assert!(!without_address.is_modern_format());
    let mut without_metadata = modern();
    without_metadata.metadata = None;
    assert!(!without_metadata.is_modern_format());
}

#[test]
fn name_and_version_come_from_the_metadata_where_there_is_one() {
    assert_eq!(legacy().get_name(), "old_program");
    assert_eq!(legacy().get_version(), "0.1.0");
    assert_eq!(modern().get_name(), "new_program");
    assert_eq!(modern().get_version(), "0.30.1");
    let mut both = modern();
    both.name = "top".to_string();
    both.version = "9".to_string();
    assert_eq!(both.get_name(), "new_program");
    assert_eq!(both.get_version(), "0.30.1");
}

#[test]
fn description_account_of_a_program() {
    let program = solana_sdk::pubkey::Pubkey::new_from_array([7u8; 32]);
    let (expected, _) = solana_sdk::pubkey::Pubkey::find_program_address(
        &[b"anchor:idl", program.as_ref()],
        &program,
    );
    let address = ohsol::idl::get_idl_address(&[7u8; 32]).unwrap();
    assert_eq!(address, expected.to_bytes());
    assert_ne!(address, [7u8; 32]);
    let other = ohsol::idl::get_idl_address(&[8u8; 32]).unwrap();
    assert_ne!(address, other);
}

#[test]
fn description_account_of_the_system_program() {
    let address = ohsol::idl::get_idl_address(&[0u8; 32]).unwrap();
    let again = ohsol::idl::get_idl_address(&[0u8; 32]).unwrap();
    assert_eq!(address, again);
    let program = solana_sdk::pubkey::Pubkey::new_from_array([0u8; 32]);
    let (expected, _) = solana_sdk::pubkey::Pubkey::find_program_address(
        &[b"anchor:idl", program.as_ref()],
        &program,
    );
    assert_eq!(address, expected.to_bytes());
}
