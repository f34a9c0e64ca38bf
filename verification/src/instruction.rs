//! The requests this program accepts and how they are decoded.
//!
//! A request buffer is one opcode byte and a payload. For opcode 0, verify a
//! signature, the payload is
//!
//! ```text
//! signer     32 bytes
//! message    u32 LE length, then that many bytes
//! signature  64 bytes
//! ```
//!
//! with nothing behind the signature.

use vstd::prelude::*;
use crate::error::Rejection;
use crate::layout::{PUBKEY_LEN, SIGNATURE_LEN};
use crate::reader::{le_u32_at, to_array, Reader};

verus! {

/// Length of the length prefix of the message.
pub const LENGTH_PREFIX_LEN: usize = 4;

/// A decoded request.
#[derive(Debug, Clone, PartialEq, Eq)]
pub enum Instruction {
    /// Confirm that the companion instruction vouches for `sig` as the
    /// signature of `signer` over `message`.
    VerifySignature { signer: [u8; 32], message: Vec<u8>, sig: [u8; 64] },
}

/// The kinds of request, by opcode.
#[derive(Debug, Clone, Copy, PartialEq, Eq, Structural)]
pub enum Opcode {
    VerifySignature,
}

impl Opcode {
    /// The kind of request that an opcode byte stands for, if any.
    pub open spec fn spec_from_byte(tag: u8) -> Option<Opcode> {
        if tag == 0 {
            Some(Opcode::VerifySignature)
        } else {
            None
        }
    }

    /// The kind of request that an opcode byte stands for, if any.
    #[verifier::when_used_as_spec(spec_from_byte)]
    pub fn from_byte(tag: u8) -> (r: Option<Opcode>)
        ensures
            r == Self::spec_from_byte(tag),
    {
        match tag {
            0 => Some(Opcode::VerifySignature),
            _ => None,
        }
    }
}

/// Whether `field` is a byte sequence in its length-prefixed encoding: a
/// little-endian `u32` that counts the bytes behind it, whatever they are.
pub open spec fn is_length_prefixed(field: Seq<u8>) -> bool {
    &&& field.len() >= LENGTH_PREFIX_LEN
    &&& le_u32_at(field, 0) == field.len() - LENGTH_PREFIX_LEN
}

/// Whether `payload` is the payload of a verify-signature request.
pub open spec fn is_verify_payload(payload: Seq<u8>) -> bool {
    &&& payload.len() >= PUBKEY_LEN + LENGTH_PREFIX_LEN + SIGNATURE_LEN
    &&& is_length_prefixed(
        payload.subrange(PUBKEY_LEN as int, payload.len() - SIGNATURE_LEN),
    )
}

/// The signer named in the payload of a verify-signature request.
pub open spec fn payload_signer(payload: Seq<u8>) -> Seq<u8> {
    payload.take(PUBKEY_LEN as int)
}

/// The bytes of the message in the payload of a verify-signature request.
pub open spec fn payload_message(payload: Seq<u8>) -> Seq<u8> {
    payload.subrange(PUBKEY_LEN + LENGTH_PREFIX_LEN, payload.len() - SIGNATURE_LEN)
}

/// The signature in the payload of a verify-signature request.
pub open spec fn payload_signature(payload: Seq<u8>) -> Seq<u8> {
    payload.skip(payload.len() - SIGNATURE_LEN)
}

/// Whether `input` decodes to a request: it has an opcode byte, the opcode
/// is known, and the payload behind it is well formed for that opcode.
pub open spec fn is_request(input: Seq<u8>) -> bool {
    &&& input.len() >= 1
    &&& Opcode::spec_from_byte(input[0]) == Some(Opcode::VerifySignature)
    &&& is_verify_payload(input.skip(1))
}

/// Whether `ins` is the request that `input` encodes.
pub open spec fn decodes_to(input: Seq<u8>, ins: Instruction) -> bool {
    match ins {
        Instruction::VerifySignature { signer, message, sig } => {
            &&& is_request(input)
            &&& signer@ == payload_signer(input.skip(1))
            &&& message@ == payload_message(input.skip(1))
            &&& sig@ == payload_signature(input.skip(1))
        },
    }
}

/// `borsh::io::Error`, the error of the `borsh` decoder. It is passed
/// through unopened.
#[verifier::external_type_specification]
#[verifier::external_body]
pub struct ExBorshError(borsh::io::Error);

/// Calls `borsh::from_slice::<Vec<u8>>`. Trusted: the call succeeds
/// exactly on a four-byte little-endian count followed by that many bytes
/// and nothing more, and the vector it returns holds those bytes.
#[verifier::external_body]
pub(crate) fn decode_bytes(field: &[u8]) -> (r: Result<Vec<u8>, borsh::io::Error>)
    ensures
        r.is_ok() <==> is_length_prefixed(field@),
        r matches Ok(v) ==> v@ == field@.skip(LENGTH_PREFIX_LEN as int),
{
    borsh::from_slice::<Vec<u8>>(field)
}

impl Instruction {
    /// Decodes a request buffer.
    pub fn unpack(input: &[u8]) -> (r: Result<Instruction, Rejection>)
        ensures
            r.is_ok() <==> is_request(input@),
            r matches Ok(ins) ==> decodes_to(input@, ins),
            r matches Err(e) ==> e == Rejection::MalformedRequest,
    {
        let mut rd = Reader::new(input);
        let tag = match rd.read_u8() {
            Some(t) => t,
            None => return Err(Rejection::MalformedRequest),
        };
        assert(rd.rest() =~= input@.skip(1));
        match Opcode::from_byte(tag) {
            Some(Opcode::VerifySignature) => Self::unpack_verify_signature(&mut rd),
            None => Err(Rejection::MalformedRequest),
        }
    }

    /// Decodes the payload of a verify-signature request from what is left
    /// in the reader.
    fn unpack_verify_signature(rd: &mut Reader) -> (r: Result<Instruction, Rejection>)
        requires
            old(rd).wf(),
        ensures
            r.is_ok() <==> is_verify_payload(old(rd).rest()),
            r matches Ok(Instruction::VerifySignature { signer, message, sig }) ==> {
                &&& signer@ == payload_signer(old(rd).rest())
                &&& message@ == payload_message(old(rd).rest())
                &&& sig@ == payload_signature(old(rd).rest())
            },
            r matches Err(e) ==> e == Rejection::MalformedRequest,
    {
        proof {
            rd.lemma_wf_bounds();
        }
        let ghost payload = rd.rest();
        let signer_bytes = match rd.read_bytes(PUBKEY_LEN) {
            Some(b) => b,
            None => return Err(Rejection::MalformedRequest),
        };
        let message_len = match rd.peek_u32_le() {
            Some(n) => n as usize,
            None => return Err(Rejection::MalformedRequest),
        };
        let left = rd.remaining();
        if left - LENGTH_PREFIX_LEN < SIGNATURE_LEN || left - LENGTH_PREFIX_LEN - SIGNATURE_LEN
            != message_len {
            return Err(Rejection::MalformedRequest);
        }
        let field = match rd.read_bytes(LENGTH_PREFIX_LEN + message_len) {
            Some(b) => b,
            None => return Err(Rejection::MalformedRequest),
        };
        let sig_bytes = match rd.read_bytes(SIGNATURE_LEN) {
            Some(b) => b,
            None => return Err(Rejection::MalformedRequest),
        };
        assert(field@ =~= payload.subrange(PUBKEY_LEN as int, payload.len() - SIGNATURE_LEN));
        assert(field@.skip(LENGTH_PREFIX_LEN as int) =~= payload_message(payload));
        assert(signer_bytes@ =~= payload_signer(payload));
        assert(sig_bytes@ =~= payload_signature(payload));
        let message = match decode_bytes(field) {
            Ok(s) => s,
            Err(_) => return Err(Rejection::MalformedRequest),
        };
        Ok(
            Instruction::VerifySignature {
                signer: to_array::<32>(signer_bytes),
                message,
                sig: to_array::<64>(sig_bytes),
            },
        )
    }
}

} // verus!
