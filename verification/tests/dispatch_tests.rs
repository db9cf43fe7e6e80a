use bubblemap_bypass::accounts::AccountRef;
use bubblemap_bypass::dispatch::{
    bypass_discriminator_bytes, dispatch, initialize_discriminator_bytes, parse_instruction,
    Instruction,
};
use bubblemap_bypass::error::ProgramError;
use bubblemap_bypass::log::Log;

fn account(key: &str, is_signer: bool, is_writable: bool) -> AccountRef {
    AccountRef { key: key.to_string(), is_signer, is_writable }
}

#[test]
fn initialize_with_empty_accounts_succeeds() {
    let data = initialize_discriminator_bytes();
    let supplied: Vec<AccountRef> = vec![];
    let mut log = Log::new();
    let r = dispatch(&data, &supplied, &mut log);
    assert_eq!(r, Ok(()));
    assert_eq!(log.len(), 1);
    assert_eq!(log.line(0).as_str(), "Bubblemap Bypass Program Initialized");
}

#[test]
fn bypass_with_empty_accounts_succeeds() {
    let data = bypass_discriminator_bytes();
    let supplied: Vec<AccountRef> = vec![];
    let mut log = Log::new();
    let r = dispatch(&data, &supplied, &mut log);
    assert_eq!(r, Ok(()));
    assert_eq!(log.len(), 1);
    assert_eq!(log.line(0).as_str(), "Bypass executed");
}

#[test]
fn bypass_with_extra_account_is_rejected() {
    let data = bypass_discriminator_bytes();
    let supplied = vec![account("Extra1111111111111111111111111111111111111", false, false)];
    let mut log = Log::new();
    let r = dispatch(&data, &supplied, &mut log);
    assert_eq!(r, Err(ProgramError::InvalidContext));
    assert_eq!(log.len(), 0);
}

#[test]
fn initialize_with_extra_account_is_rejected() {
    let data = initialize_discriminator_bytes();
    let supplied = vec![
        account("Extra1111111111111111111111111111111111111", true, true),
        account("Extra2111111111111111111111111111111111111", false, false),
    ];
    let mut log = Log::new();
    let r = dispatch(&data, &supplied, &mut log);
    assert_eq!(r, Err(ProgramError::InvalidContext));
    assert_eq!(log.len(), 0);
}

#[test]
fn undefined_discriminator_is_rejected_as_unknown() {
    let data: Vec<u8> = vec![0, 1, 2, 3, 4, 5, 6, 7];
    let supplied: Vec<AccountRef> = vec![];
    let mut log = Log::new();
    let r = dispatch(&data, &supplied, &mut log);
    assert_eq!(r, Err(ProgramError::UnknownInstruction));
    assert_ne!(r, Err(ProgramError::InvalidContext));
    assert_eq!(log.len(), 0);
}

#[test]
fn short_instruction_data_is_rejected_as_unknown() {
    let data: Vec<u8> = vec![175, 175, 109];
    let supplied: Vec<AccountRef> = vec![];
    let mut log = Log::new();
    let r = dispatch(&data, &supplied, &mut log);
    assert_eq!(r, Err(ProgramError::UnknownInstruction));
    assert_eq!(log.len(), 0);
}

#[test]
fn empty_instruction_data_is_rejected_as_unknown() {
    let data: Vec<u8> = vec![];
    let supplied: Vec<AccountRef> = vec![];
    let mut log = Log::new();
    let r = dispatch(&data, &supplied, &mut log);
    assert_eq!(r, Err(ProgramError::UnknownInstruction));
    assert_eq!(log.len(), 0);
}

#[test]
fn trailing_payload_bytes_do_not_change_the_selected_handler() {
    let mut data = initialize_discriminator_bytes();
    data.push(9);
    data.push(8);
    data.push(7);
    let supplied: Vec<AccountRef> = vec![];
    let mut log = Log::new();
    let r = dispatch(&data, &supplied, &mut log);
    assert_eq!(r, Ok(()));
    assert_eq!(log.len(), 1);
    assert_eq!(log.line(0).as_str(), "Bubblemap Bypass Program Initialized");
}

#[test]
fn parse_instruction_recognizes_both_tags() {
    assert_eq!(
        parse_instruction(&initialize_discriminator_bytes()),
        Some(Instruction::Initialize)
    );
    assert_eq!(parse_instruction(&bypass_discriminator_bytes()), Some(Instruction::Bypass));
    assert_eq!(parse_instruction(&vec![255u8; 8]), None);
}

#[test]
fn repeated_initialize_returns_the_same_success_each_time() {
    let data = initialize_discriminator_bytes();
    let supplied: Vec<AccountRef> = vec![];
    let mut log = Log::new();
    let first = dispatch(&data, &supplied, &mut log);
    let second = dispatch(&data, &supplied, &mut log);
    let third = dispatch(&data, &supplied, &mut log);
    assert_eq!(first, Ok(()));
    assert_eq!(second, first);
    assert_eq!(third, first);
    assert_eq!(log.len(), 3);
    assert_eq!(log.line(0).as_str(), "Bubblemap Bypass Program Initialized");
    assert_eq!(log.line(2).as_str(), "Bubblemap Bypass Program Initialized");
}
