use sigverify::error::{CustomError, Rejection};
use sigverify::process_instruction;
use sigverify::verify_signature_processor::verify_ed25519;
use solana_program::account_info::AccountInfo;
use solana_program::program_error::ProgramError;
use solana_program::pubkey::Pubkey;
use solana_program::sysvar::instructions::{
    construct_instructions_data, BorrowedAccountMeta, BorrowedInstruction,
};

const SIGNER: [u8; 32] = [0x11; 32];
const SIG: [u8; 64] = [0x22; 64];

fn signature_failed() -> Result<(), Rejection> {
    Err(Rejection::Signature(CustomError::SignatureVerificationError))
}

fn ed25519_data(pubkey: &[u8], sig: &[u8], msg: &[u8]) -> Vec<u8> {
    let mut d = vec![1u8, 0];
    d.extend_from_slice(&48u16.to_le_bytes());
    d.extend_from_slice(&0xFFFFu16.to_le_bytes());
    d.extend_from_slice(&16u16.to_le_bytes());
    d.extend_from_slice(&0xFFFFu16.to_le_bytes());
    d.extend_from_slice(&112u16.to_le_bytes());
    d.extend_from_slice(&(msg.len() as u16).to_le_bytes());
    d.extend_from_slice(&0xFFFFu16.to_le_bytes());
    d.extend_from_slice(pubkey);
    d.extend_from_slice(sig);
    d.extend_from_slice(msg);
    d
}

fn request_buffer(signer: &[u8; 32], message: &[u8], sig: &[u8; 64]) -> Vec<u8> {
    let mut buf = vec![0u8];
    buf.extend_from_slice(signer);
    buf.extend_from_slice(&(message.len() as u32).to_le_bytes());
    buf.extend_from_slice(message);
    buf.extend_from_slice(sig);
    buf
}

/// The data of an instructions sysvar whose first instruction belongs to
/// `program` and carries `data`, followed by an unrelated second instruction.
fn sysvar_data(program: &Pubkey, accounts: &[Pubkey], data: &[u8]) -> Vec<u8> {
    let other = Pubkey::new_from_array([0x77; 32]);
    let first = BorrowedInstruction {
        program_id: program,
        accounts: accounts
            .iter()
            .map(|k| BorrowedAccountMeta { pubkey: k, is_signer: false, is_writable: true })
            .collect(),
        data,
    };
    let second = BorrowedInstruction { program_id: &other, accounts: Vec::new(), data: &[1, 2, 3] };
    construct_instructions_data(&[first, second]).unwrap()
}

fn run_verify(key: &Pubkey, account_data: &mut [u8], message: &[u8]) -> Result<(), Rejection> {
    let owner = Pubkey::new_from_array([0; 32]);
    let mut lamports = 0u64;
    let account = AccountInfo::new(key, false, false, &mut lamports, account_data, &owner, false);
    verify_ed25519(&account, SIGNER, message.to_vec(), SIG)
}

fn run_process(key: &Pubkey, account_data: &mut [u8], request: &[u8]) -> Result<(), Rejection> {
    let owner = Pubkey::new_from_array([0; 32]);
    let system = Pubkey::new_from_array([0; 32]);
    let mut lamports = 0u64;
    let mut system_lamports = 0u64;
    let mut no_data: [u8; 0] = [];
    let accounts = [
        AccountInfo::new(key, false, false, &mut lamports, account_data, &owner, false),
        AccountInfo::new(&system, false, false, &mut system_lamports, &mut no_data, &owner, true),
    ];
    process_instruction(&[0x55; 32], &accounts, request)
}

#[test]
fn companion_in_the_sysvar_is_fetched_and_accepted() {
    let ed = solana_program::ed25519_program::ID;
    let mut data = sysvar_data(&ed, &[], &ed25519_data(&SIGNER, &SIG, b"hello"));
    let key = solana_program::sysvar::instructions::ID;
    assert_eq!(run_verify(&key, &mut data, b"hello"), Ok(()));
}

#[test]
fn fetched_companion_for_another_message_is_rejected() {
    let ed = solana_program::ed25519_program::ID;
    let mut data = sysvar_data(&ed, &[], &ed25519_data(&SIGNER, &SIG, b"hello"));
    let key = solana_program::sysvar::instructions::ID;
    assert_eq!(run_verify(&key, &mut data, b"hullo"), signature_failed());
    assert_eq!(run_verify(&key, &mut data, b"hello!"), signature_failed());
}

#[test]
fn fetched_companion_of_another_program_is_rejected() {
    let other = solana_program::secp256k1_program::ID;
    let mut data = sysvar_data(&other, &[], &ed25519_data(&SIGNER, &SIG, b"hello"));
    let key = solana_program::sysvar::instructions::ID;
    assert_eq!(run_verify(&key, &mut data, b"hello"), signature_failed());
}

#[test]
fn fetched_companion_with_accounts_is_rejected() {
    let ed = solana_program::ed25519_program::ID;
    let extra = Pubkey::new_from_array([0x33; 32]);
    let mut data = sysvar_data(&ed, &[extra], &ed25519_data(&SIGNER, &SIG, b"hello"));
    let key = solana_program::sysvar::instructions::ID;
    assert_eq!(run_verify(&key, &mut data, b"hello"), signature_failed());
}

#[test]
fn only_the_first_instruction_counts() {
    let ed = solana_program::ed25519_program::ID;
    let other = Pubkey::new_from_array([0x77; 32]);
    let good = ed25519_data(&SIGNER, &SIG, b"hello");
    let first = BorrowedInstruction { program_id: &other, accounts: Vec::new(), data: &[1, 2, 3] };
    let second = BorrowedInstruction { program_id: &ed, accounts: Vec::new(), data: &good };
    let mut data = construct_instructions_data(&[first, second]).unwrap();
    let key = solana_program::sysvar::instructions::ID;
    assert_eq!(run_verify(&key, &mut data, b"hello"), signature_failed());
}

#[test]
fn account_that_is_not_the_sysvar_fails_the_fetch() {
    let ed = solana_program::ed25519_program::ID;
    let mut data = sysvar_data(&ed, &[], &ed25519_data(&SIGNER, &SIG, b"hello"));
    let key = Pubkey::new_from_array([0x44; 32]);
    assert_eq!(
        run_verify(&key, &mut data, b"hello"),
        Err(Rejection::Fetch(ProgramError::UnsupportedSysvar))
    );
}

#[test]
fn sysvar_without_instructions_fails_the_fetch() {
    let mut data = construct_instructions_data(&[]).unwrap();
    let key = solana_program::sysvar::instructions::ID;
    assert_eq!(
        run_verify(&key, &mut data, b"hello"),
        Err(Rejection::Fetch(ProgramError::InvalidArgument))
    );
}

#[test]
fn sysvar_with_garbage_fails_the_fetch() {
    let key = solana_program::sysvar::instructions::ID;
    let mut empty: [u8; 0] = [];
    assert_eq!(
        run_verify(&key, &mut empty, b"hello"),
        Err(Rejection::Fetch(ProgramError::InvalidArgument))
    );
    let mut cut = [1u8, 0, 4, 0, 0];
    assert_eq!(
        run_verify(&key, &mut cut, b"hello"),
        Err(Rejection::Fetch(ProgramError::InvalidArgument))
    );
}

#[test]
fn request_is_processed_end_to_end() {
    let ed = solana_program::ed25519_program::ID;
    let mut data = sysvar_data(&ed, &[], &ed25519_data(&SIGNER, &SIG, b"hello"));
    let key = solana_program::sysvar::instructions::ID;
    let request = request_buffer(&SIGNER, b"hello", &SIG);
    assert_eq!(run_process(&key, &mut data, &request), Ok(()));
    let other = request_buffer(&[0x12; 32], b"hello", &SIG);
    assert_eq!(run_process(&key, &mut data, &other), signature_failed());
    let other = request_buffer(&SIGNER, b"hello", &[0x23; 64]);
    assert_eq!(run_process(&key, &mut data, &other), signature_failed());
    let other = request_buffer(&SIGNER, b"hell", &SIG);
    assert_eq!(run_process(&key, &mut data, &other), signature_failed());
}

#[test]
fn malformed_request_is_rejected_before_anything_else() {
    let key = Pubkey::new_from_array([0x44; 32]);
    let mut data: [u8; 0] = [];
    assert_eq!(run_process(&key, &mut data, &[]), Err(Rejection::MalformedRequest));
    assert_eq!(run_process(&key, &mut data, &[1]), Err(Rejection::MalformedRequest));
    let mut request = request_buffer(&SIGNER, b"hello", &SIG);
    request.pop();
    assert_eq!(run_process(&key, &mut data, &request), Err(Rejection::MalformedRequest));
    assert_eq!(process_instruction(&[0; 32], &[], &request), Err(Rejection::MalformedRequest));
}

#[test]
fn request_with_too_few_accounts_is_rejected() {
    let request = request_buffer(&SIGNER, b"hello", &SIG);
    assert_eq!(process_instruction(&[0; 32], &[], &request), Err(Rejection::NotEnoughAccountKeys));
    let ed = solana_program::ed25519_program::ID;
    let mut data = sysvar_data(&ed, &[], &ed25519_data(&SIGNER, &SIG, b"hello"));
    let key = solana_program::sysvar::instructions::ID;
    let owner = Pubkey::new_from_array([0; 32]);
    let mut lamports = 0u64;
    let one = [AccountInfo::new(&key, false, false, &mut lamports, &mut data, &owner, false)];
    assert_eq!(process_instruction(&[0; 32], &one, &request), Err(Rejection::NotEnoughAccountKeys));
}

#[test]
fn fetch_failure_is_reported_when_processing() {
    let ed = solana_program::ed25519_program::ID;
    let mut data = sysvar_data(&ed, &[], &ed25519_data(&SIGNER, &SIG, b"hello"));
    let key = Pubkey::new_from_array([0x44; 32]);
    let request = request_buffer(&SIGNER, b"hello", &SIG);
    assert_eq!(
        run_process(&key, &mut data, &request),
        Err(Rejection::Fetch(ProgramError::UnsupportedSysvar))
    );
}

#[test]
fn request_with_oversized_message_is_rejected_not_crashed() {
    let ed = solana_program::ed25519_program::ID;
    let mut data = sysvar_data(&ed, &[], &ed25519_data(&SIGNER, &SIG, b"hello"));
    let key = solana_program::sysvar::instructions::ID;
    let message = vec![b'a'; 65536 + 5];
    let request = request_buffer(&SIGNER, &message, &SIG);
    assert_eq!(run_process(&key, &mut data, &request), signature_failed());
}
