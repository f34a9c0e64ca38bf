//! Validation of a companion ed25519 signature-check instruction.
//!
//! A request names a signer, a message and a signature. Before the caller
//! trusts the signature, this crate confirms that the first instruction of the
//! same transaction is an instruction of the platform's native ed25519
//! facility and that it carries exactly those bytes, laid out as that facility
//! expects them. The signature arithmetic itself is the platform's.

use vstd::prelude::*;
use solana_program::account_info::AccountInfo;
use solana_program::program_error::ProgramError;
use crate::error::Rejection;
use crate::instruction::{
    is_request, payload_message, payload_signature, payload_signer, Instruction,
};
use crate::platform::CompanionInstruction;
use crate::verify_signature_processor::{judgement, verify_ed25519};

pub mod error;
pub mod instruction;
pub mod layout;
pub mod platform;
pub mod reader;
pub mod verify_signature_processor;

verus! {

/// How many accounts a request must pass: the instructions sysvar account
/// and the system program.
pub const REQUIRED_ACCOUNTS: usize = 2;

/// Handles one request: decodes it, takes the instructions sysvar account
/// from the accounts passed, and checks the companion instruction.
///
/// A buffer that does not decode is rejected as malformed before anything
/// else is looked at; then a request with too few accounts is rejected; and
/// only then is the companion instruction fetched. The result is then the
/// judgement of what was fetched, for the signer, message and signature that
/// the buffer names.
pub fn process_instruction(
    _program_id: &[u8; 32],
    accounts: &[AccountInfo],
    instruction_data: &[u8],
) -> (r: Result<(), Rejection>)
    ensures
        !is_request(instruction_data@) ==> r == Err::<(), Rejection>(Rejection::MalformedRequest),
        is_request(instruction_data@) && accounts@.len() < REQUIRED_ACCOUNTS ==> r == Err::<
            (),
            Rejection,
        >(Rejection::NotEnoughAccountKeys),
        is_request(instruction_data@) && accounts@.len() >= REQUIRED_ACCOUNTS ==> exists|
            fetched: Result<CompanionInstruction, ProgramError>,
        |
            r == judgement(
                fetched,
                payload_signer(instruction_data@.skip(1)),
                payload_message(instruction_data@.skip(1)),
                payload_signature(instruction_data@.skip(1)),
            ),
{
    let instruction = match Instruction::unpack(instruction_data) {
        Ok(i) => i,
        Err(e) => return Err(e),
    };
    match instruction {
        Instruction::VerifySignature { signer, message, sig } => {
            if accounts.len() < REQUIRED_ACCOUNTS {
                return Err(Rejection::NotEnoughAccountKeys);
            }
            let sysvar_account = &accounts[0];
            let ghost message_seq = message@;
            let r = verify_ed25519(sysvar_account, signer, message, sig);
            proof {
                let fetched = choose|fetched: Result<CompanionInstruction, ProgramError>|
                    r == judgement(fetched, signer@, message_seq, sig@);
                assert(r == judgement(
                    fetched,
                    payload_signer(instruction_data@.skip(1)),
                    payload_message(instruction_data@.skip(1)),
                    payload_signature(instruction_data@.skip(1)),
                ));
            }
            r
        },
    }
}

} // verus!
