//! What this crate takes from the platform: the identity of the native
//! ed25519 program and the instructions of the running transaction. Nothing
//! here is proved; each contract says what is taken on trust.

use vstd::prelude::*;
use solana_program::account_info::AccountInfo;
use solana_program::program_error::ProgramError;

verus! {

/// `solana_program::account_info::AccountInfo`, the platform's handle on an
/// account. It is passed through unopened.
#[verifier::external_type_specification]
#[verifier::external_body]
pub struct ExAccountInfo<'a>(solana_program::account_info::AccountInfo<'a>);

/// A reference from an instruction to an account.
#[derive(Debug, Clone, Copy, PartialEq, Eq)]
pub struct AccountRef {
    pub pubkey: [u8; 32],
    pub is_signer: bool,
    pub is_writable: bool,
}

/// An instruction of the running transaction, as the instruction
/// introspection of the platform describes it.
#[derive(Debug, Clone, PartialEq, Eq)]
pub struct CompanionInstruction {
    /// The program that executes the instruction.
    pub program_id: [u8; 32],
    /// The accounts the instruction refers to, in order.
    pub accounts: Vec<AccountRef>,
    /// The instruction's data.
    pub data: Vec<u8>,
}

/// The 32 bytes of the address `Ed25519SigVerify111111111111111111111111111`,
/// under which the platform runs its native ed25519 signature check.
pub open spec fn ed25519_program_id_bytes() -> Seq<u8> {
    seq![
        3u8, 125, 70, 214, 124, 147, 251, 190, 18, 249, 66, 143, 131, 141, 64, 255,
        5, 112, 116, 73, 39, 244, 138, 100, 252, 202, 112, 68, 128, 0, 0, 0,
    ]
}

/// Reads `solana_program::ed25519_program::ID`. Trusted: the constant is the
/// address written out in `ed25519_program_id_bytes`.
#[verifier::external_body]
pub(crate) fn ed25519_program_id() -> (id: [u8; 32])
    ensures
        id@ == ed25519_program_id_bytes(),
{
    solana_program::ed25519_program::ID.to_bytes()
}

/// Calls `solana_program::sysvar::instructions::load_instruction_at_checked`
/// and copies the fields of the instruction it returns. Trusted: the call
/// returns without panicking. Which instruction or error comes back depends
/// on the account, so nothing is stated of it.
#[verifier::external_body]
pub(crate) fn load_instruction_at(index: usize, sysvar_account: &AccountInfo) -> (r: Result<
    CompanionInstruction,
    ProgramError,
>)
{
    let ix = solana_program::sysvar::instructions::load_instruction_at_checked(
        index,
        sysvar_account,
    )?;
    let accounts = ix.accounts.iter().map(
        |a| AccountRef { pubkey: a.pubkey.to_bytes(), is_signer: a.is_signer, is_writable: a.is_writable },
    ).collect();
    Ok(CompanionInstruction { program_id: ix.program_id.to_bytes(), accounts, data: ix.data })
}

} // verus!
