//! The failures this crate reports.

use vstd::prelude::*;
use solana_program::program_error::ProgramError;

verus! {

/// `solana_program::program_error::ProgramError`, the platform's error type.
/// It is carried through unopened when fetching the companion instruction
/// fails.
#[verifier::external_type_specification]
#[verifier::external_body]
pub struct ExProgramError(solana_program::program_error::ProgramError);

/// The one failure of this program's own: the companion instruction is not
/// the expected ed25519 instruction over the claimed key, message and
/// signature. Which check tripped is deliberately not reported.
#[derive(Debug, Clone, Copy, PartialEq, Eq, Structural)]
pub enum CustomError {
    SignatureVerificationError,
}

impl CustomError {
    /// The number under which the platform reports this failure as a custom
    /// program error.
    pub open spec fn spec_code(&self) -> u32 {
        0
    }

    /// The number under which the platform reports this failure as a custom
    /// program error.
    #[verifier::when_used_as_spec(spec_code)]
    pub fn code(&self) -> (c: u32)
        ensures
            c == self.spec_code(),
    {
        match self {
            CustomError::SignatureVerificationError => 0,
        }
    }

    /// The text shown for this failure.
    pub fn message(&self) -> (s: String)
        ensures
            s@ == "Signature verification FAILED"@,
    {
        match self {
            CustomError::SignatureVerificationError => "Signature verification FAILED".to_string(),
        }
    }
}

/// Why a request was rejected. Every rejection ends the request.
#[derive(Debug, PartialEq, Eq)]
pub enum Rejection {
    /// The request buffer is empty, names an unknown opcode, or its payload
    /// does not decode.
    MalformedRequest,
    /// Fewer accounts were passed than the request needs.
    NotEnoughAccountKeys,
    /// The companion instruction could not be fetched; the platform's error
    /// is kept as it came.
    Fetch(ProgramError),
    /// The companion instruction does not vouch for the request.
    Signature(CustomError),
}

} // verus!
