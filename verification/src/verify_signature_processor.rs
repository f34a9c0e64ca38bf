//! The two checks on the companion instruction: its coarse structure, then
//! the layout and content of its data.

use vstd::prelude::*;
use solana_program::account_info::AccountInfo;
use solana_program::program_error::ProgramError;
use crate::error::{CustomError, Rejection};
use crate::layout::{
    ed25519_data, is_ed25519_data, lemma_constructed_data_is_accepted, Ed25519Header,
    HEADER_LEN, MAX_MESSAGE_LEN, MESSAGE_OFFSET, PUBKEY_LEN, SIGNATURE_LEN,
};
use crate::platform::{
    ed25519_program_id, ed25519_program_id_bytes, load_instruction_at, CompanionInstruction,
};
use crate::reader::{bytes_eq, Reader};

verus! {

/// Position, among the instructions of the transaction, of the companion
/// instruction.
pub const COMPANION_INDEX: usize = 0;

/// Whether the instruction belongs to the expected program, refers to no
/// account, and carries exactly as much data as an ed25519 instruction over
/// a message of `message_len` bytes.
pub open spec fn has_ed25519_structure(
    ix: CompanionInstruction,
    expected_program_id: Seq<u8>,
    message_len: int,
) -> bool {
    &&& ix.program_id@ == expected_program_id
    &&& ix.accounts@.len() == 0
    &&& ix.data@.len() == HEADER_LEN + SIGNATURE_LEN + PUBKEY_LEN + message_len
}

/// Whether the instruction vouches for the signature: it is an instruction
/// of the native ed25519 program with the expected structure, and its data
/// is laid out over exactly this key, message and signature.
pub open spec fn vouches_for(
    ix: CompanionInstruction,
    pubkey: Seq<u8>,
    msg: Seq<u8>,
    sig: Seq<u8>,
) -> bool {
    &&& has_ed25519_structure(ix, ed25519_program_id_bytes(), msg.len() as int)
    &&& is_ed25519_data(ix.data@, pubkey, msg, sig)
}

/// Checks the coarse structure of the companion instruction.
pub fn check_structure(
    ix: &CompanionInstruction,
    expected_program_id: &[u8; 32],
    message_len: usize,
) -> (r: Result<(), CustomError>)
    ensures
        r.is_ok() <==> has_ed25519_structure(*ix, expected_program_id@, message_len as int),
        r.is_err() ==> r == Err::<(), CustomError>(CustomError::SignatureVerificationError),
{
    if !bytes_eq(ix.program_id.as_slice(), expected_program_id.as_slice())
        || ix.accounts.len() != 0
        || ix.data.len() < MESSAGE_OFFSET
        || ix.data.len() - MESSAGE_OFFSET != message_len {
        return Err(CustomError::SignatureVerificationError);
    }
    Ok(())
}

/// Checks the layout and content of the data of an ed25519 instruction
/// against the claimed key, message and signature.
///
/// The size of the message is a 16-bit field of the header, so the message
/// must be at most 65535 bytes long.
pub fn check_ed25519_data(data: &[u8], pubkey: &[u8], msg: &[u8], sig: &[u8]) -> (r: Result<
    (),
    CustomError,
>)
    requires
        msg@.len() <= MAX_MESSAGE_LEN,
    ensures
        r.is_ok() <==> is_ed25519_data(data@, pubkey@, msg@, sig@),
        r.is_err() ==> r == Err::<(), CustomError>(CustomError::SignatureVerificationError),
{
    let mut rd = Reader::new(data);
    assert(rd.rest() =~= data@);
    let header = match Ed25519Header::read(&mut rd) {
        Some(h) => h,
        None => return Err(CustomError::SignatureVerificationError),
    };
    if !header.is_for(pubkey.len(), sig.len(), msg.len()) {
        return Err(CustomError::SignatureVerificationError);
    }
    let data_pubkey = match rd.read_bytes(PUBKEY_LEN) {
        Some(b) => b,
        None => return Err(CustomError::SignatureVerificationError),
    };
    let data_sig = match rd.read_bytes(SIGNATURE_LEN) {
        Some(b) => b,
        None => return Err(CustomError::SignatureVerificationError),
    };
    let data_msg = rd.read_rest();
    if !bytes_eq(data_pubkey, pubkey) || !bytes_eq(data_msg, msg) || !bytes_eq(data_sig, sig) {
        return Err(CustomError::SignatureVerificationError);
    }
    Ok(())
}

/// Checks that the companion instruction vouches for the signature: first
/// its structure, then its data. A message too long for the size field of
/// the header is vouched for by no instruction.
pub fn verify_ed25519_ix(ix: &CompanionInstruction, pubkey: &[u8], msg: &[u8], sig: &[u8]) -> (r:
    Result<(), CustomError>)
    ensures
        r.is_ok() <==> vouches_for(*ix, pubkey@, msg@, sig@),
        r.is_err() ==> r == Err::<(), CustomError>(CustomError::SignatureVerificationError),
{
    let expected = ed25519_program_id();
    match check_structure(ix, &expected, msg.len()) {
        Ok(()) => {},
        Err(e) => return Err(e),
    }
    if msg.len() > MAX_MESSAGE_LEN {
        return Err(CustomError::SignatureVerificationError);
    }
    check_ed25519_data(ix.data.as_slice(), pubkey, msg, sig)
}

/// What the outcome of fetching the companion instruction means for the
/// request: a failed fetch rejects it with the platform's error, and a
/// fetched instruction decides by whether it vouches for the signature.
pub open spec fn judgement(
    fetched: Result<CompanionInstruction, ProgramError>,
    pubkey: Seq<u8>,
    msg: Seq<u8>,
    sig: Seq<u8>,
) -> Result<(), Rejection> {
    match fetched {
        Ok(ix) => if vouches_for(ix, pubkey, msg, sig) {
            Ok(())
        } else {
            Err(Rejection::Signature(CustomError::SignatureVerificationError))
        },
        Err(e) => Err(Rejection::Fetch(e)),
    }
}

/// Judges the request by the outcome of fetching the companion
/// instruction.
pub fn judge_fetched(
    fetched: Result<CompanionInstruction, ProgramError>,
    pubkey: &[u8],
    msg: &[u8],
    sig: &[u8],
) -> (r: Result<(), Rejection>)
    ensures
        r == judgement(fetched, pubkey@, msg@, sig@),
{
    let ix = match fetched {
        Ok(ix) => ix,
        Err(e) => return Err(Rejection::Fetch(e)),
    };
    match verify_ed25519_ix(&ix, pubkey, msg, sig) {
        Ok(()) => Ok(()),
        Err(e) => Err(Rejection::Signature(e)),
    }
}

/// Fetches the companion instruction through the instructions sysvar
/// account and judges the request by it.
///
/// Which instruction or error the platform hands out is not known here;
/// the result is the judgement of whatever came.
pub fn verify_ed25519(
    sysvar_account: &AccountInfo,
    pubkey: [u8; 32],
    message: Vec<u8>,
    sig: [u8; 64],
) -> (r: Result<(), Rejection>)
    ensures
        exists|fetched: Result<CompanionInstruction, ProgramError>|
            r == judgement(fetched, pubkey@, message@, sig@),
{
    let fetched = load_instruction_at(COMPANION_INDEX, sysvar_account);
    let ghost seen = fetched;
    let r = judge_fetched(fetched, pubkey.as_slice(), message.as_slice(), sig.as_slice());
    assert(r == judgement(seen, pubkey@, message@, sig@));
    r
}

/// An instruction of the native ed25519 program that refers to no account
/// and whose data is constructed as the layout prescribes vouches for the
/// key, message and signature it was constructed from.
pub proof fn lemma_constructed_instruction_vouches(
    ix: CompanionInstruction,
    pubkey: Seq<u8>,
    msg: Seq<u8>,
    sig: Seq<u8>,
)
    requires
        pubkey.len() == PUBKEY_LEN,
        sig.len() == SIGNATURE_LEN,
        msg.len() <= MAX_MESSAGE_LEN,
        ix.program_id@ == ed25519_program_id_bytes(),
        ix.accounts@.len() == 0,
        ix.data@ == ed25519_data(pubkey, sig, msg),
    ensures
        vouches_for(ix, pubkey, msg, sig),
{
    lemma_constructed_data_is_accepted(pubkey, sig, msg);
}

/// An instruction that refers to any account vouches for nothing, whatever
/// its data.
pub proof fn lemma_accounts_are_rejected(
    ix: CompanionInstruction,
    pubkey: Seq<u8>,
    msg: Seq<u8>,
    sig: Seq<u8>,
)
    requires
        ix.accounts@.len() != 0,
    ensures
        !vouches_for(ix, pubkey, msg, sig),
{
}

/// An instruction of any program but the native ed25519 program vouches
/// for nothing, whatever its data.
pub proof fn lemma_other_program_is_rejected(
    ix: CompanionInstruction,
    pubkey: Seq<u8>,
    msg: Seq<u8>,
    sig: Seq<u8>,
)
    requires
        ix.program_id@ != ed25519_program_id_bytes(),
    ensures
        !vouches_for(ix, pubkey, msg, sig),
{
}

} // verus!
