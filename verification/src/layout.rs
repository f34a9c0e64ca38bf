//! The binary layout of the data of an ed25519 signature-check instruction
//! that carries one signature whose key, signature and message all lie in
//! the instruction itself.
//!
//! ```text
//! offset 0   : number of signatures        u8      (1)
//! offset 1   : padding                     u8      (0)
//! offset 2   : signature offset            u16 LE
//! offset 4   : signature instruction index u16 LE  (0xFFFF)
//! offset 6   : public key offset           u16 LE  (16)
//! offset 8   : public key instruction idx  u16 LE  (0xFFFF)
//! offset 10  : message data offset         u16 LE
//! offset 12  : message data size           u16 LE
//! offset 14  : message instruction index   u16 LE  (0xFFFF)
//! offset 16  : public key                  32 bytes
//! offset 48  : signature                   64 bytes
//! offset 112 : message                     message data size bytes
//! ```

use vstd::prelude::*;
use crate::reader::{le_u16, le_u16_at, u16_le_bytes, Reader};

verus! {

/// Length of the header: two bytes and seven 16-bit fields.
pub const HEADER_LEN: usize = 16;

/// Length of an ed25519 public key.
pub const PUBKEY_LEN: usize = 32;

/// Length of an ed25519 signature.
pub const SIGNATURE_LEN: usize = 64;

/// Offset of the message: header, public key and signature come before it.
pub const MESSAGE_OFFSET: usize = 112;

/// The longest message whose size the 16-bit size field can state.
pub const MAX_MESSAGE_LEN: usize = 0xFFFF;

/// The instruction index that means "this region lies in the data of this
/// very instruction". Any other value would let the region be borrowed from
/// another instruction of the transaction.
pub const THIS_INSTRUCTION: u16 = 0xFFFF;

/// The nine header fields, in the order in which they are laid out.
#[derive(Debug, Clone, Copy, PartialEq, Eq, Structural)]
pub struct Ed25519Header {
    pub num_signatures: u8,
    pub padding: u8,
    pub signature_offset: u16,
    pub signature_instruction_index: u16,
    pub public_key_offset: u16,
    pub public_key_instruction_index: u16,
    pub message_data_offset: u16,
    pub message_data_size: u16,
    pub message_instruction_index: u16,
}

/// The header that the first sixteen bytes of `data` spell.
pub open spec fn header_of(data: Seq<u8>) -> Ed25519Header
    recommends
        data.len() >= HEADER_LEN,
{
    Ed25519Header {
        num_signatures: data[0],
        padding: data[1],
        signature_offset: le_u16_at(data, 2) as u16,
        signature_instruction_index: le_u16_at(data, 4) as u16,
        public_key_offset: le_u16_at(data, 6) as u16,
        public_key_instruction_index: le_u16_at(data, 8) as u16,
        message_data_offset: le_u16_at(data, 10) as u16,
        message_data_size: le_u16_at(data, 12) as u16,
        message_instruction_index: le_u16_at(data, 14) as u16,
    }
}

impl Ed25519Header {
    /// Whether this is the one header that describes a single signature
    /// with a public key of `pubkey_len` bytes, then a signature of
    /// `sig_len` bytes, then a message of `msg_len` bytes, all three in the
    /// instruction's own data directly behind the header.
    pub open spec fn describes(&self, pubkey_len: int, sig_len: int, msg_len: int) -> bool {
        &&& self.num_signatures == 1
        &&& self.padding == 0
        &&& self.signature_offset == HEADER_LEN + pubkey_len
        &&& self.signature_instruction_index == THIS_INSTRUCTION
        &&& self.public_key_offset == HEADER_LEN
        &&& self.public_key_instruction_index == THIS_INSTRUCTION
        &&& self.message_data_offset == HEADER_LEN + pubkey_len + sig_len
        &&& self.message_data_size == msg_len
        &&& self.message_instruction_index == THIS_INSTRUCTION
    }

    /// The sixteen bytes that spell this header.
    pub open spec fn to_bytes(&self) -> Seq<u8> {
        seq![self.num_signatures, self.padding] + u16_le_bytes(self.signature_offset as int)
            + u16_le_bytes(self.signature_instruction_index as int) + u16_le_bytes(
            self.public_key_offset as int,
        ) + u16_le_bytes(self.public_key_instruction_index as int) + u16_le_bytes(
            self.message_data_offset as int,
        ) + u16_le_bytes(self.message_data_size as int) + u16_le_bytes(
            self.message_instruction_index as int,
        )
    }

    /// Whether this header describes the given lengths.
    pub fn is_for(&self, pubkey_len: usize, sig_len: usize, msg_len: usize) -> (r: bool)
        ensures
            r == self.describes(pubkey_len as int, sig_len as int, msg_len as int),
    {
        self.num_signatures == 1 && self.padding == 0 && self.signature_offset as usize
            >= HEADER_LEN && self.signature_offset as usize - HEADER_LEN == pubkey_len
            && self.signature_instruction_index == THIS_INSTRUCTION && self.public_key_offset
            as usize == HEADER_LEN && self.public_key_instruction_index == THIS_INSTRUCTION
            && self.message_data_offset >= self.signature_offset && (self.message_data_offset
            - self.signature_offset) as usize == sig_len && self.message_data_size as usize
            == msg_len && self.message_instruction_index == THIS_INSTRUCTION
    }

    /// Reads the nine fields from the reader, or returns `None` and leaves
    /// the reader in place when fewer than sixteen bytes are left.
    pub fn read(rd: &mut Reader) -> (r: Option<Ed25519Header>)
        requires
            old(rd).wf(),
        ensures
            final(rd).wf(),
            final(rd).source() == old(rd).source(),
            match r {
                Some(h) => old(rd).has(HEADER_LEN as int) && h == header_of(old(rd).rest())
                    && final(rd).offset() == old(rd).offset() + HEADER_LEN,
                None => !old(rd).has(HEADER_LEN as int) && final(rd).offset() == old(rd).offset(),
            },
    {
        proof {
            rd.lemma_wf_bounds();
        }
        if rd.remaining() < HEADER_LEN {
            return None;
        }
        let num_signatures = match rd.read_u8() { Some(v) => v, None => return None };
        let padding = match rd.read_u8() { Some(v) => v, None => return None };
        let signature_offset = match rd.read_u16_le() { Some(v) => v, None => return None };
        let signature_instruction_index = match rd.read_u16_le() { Some(v) => v, None => return None };
        let public_key_offset = match rd.read_u16_le() { Some(v) => v, None => return None };
        let public_key_instruction_index = match rd.read_u16_le() { Some(v) => v, None => return None };
        let message_data_offset = match rd.read_u16_le() { Some(v) => v, None => return None };
        let message_data_size = match rd.read_u16_le() { Some(v) => v, None => return None };
        let message_instruction_index = match rd.read_u16_le() { Some(v) => v, None => return None };
        Some(
            Ed25519Header {
                num_signatures,
                padding,
                signature_offset,
                signature_instruction_index,
                public_key_offset,
                public_key_instruction_index,
                message_data_offset,
                message_data_size,
                message_instruction_index,
            },
        )
    }
}

/// Whether `data` is laid out as the data of an ed25519 instruction over
/// exactly this key, signature and message: the header describes their
/// lengths, and the three regions behind it hold their bytes, with nothing
/// before, between or after them.
pub open spec fn is_ed25519_data(data: Seq<u8>, pubkey: Seq<u8>, msg: Seq<u8>, sig: Seq<u8>) -> bool {
    &&& data.len() >= MESSAGE_OFFSET
    &&& header_of(data).describes(pubkey.len() as int, sig.len() as int, msg.len() as int)
    &&& data.subrange(HEADER_LEN as int, HEADER_LEN + PUBKEY_LEN) == pubkey
    &&& data.subrange(HEADER_LEN + PUBKEY_LEN, MESSAGE_OFFSET as int) == sig
    &&& data.subrange(MESSAGE_OFFSET as int, data.len() as int) == msg
}

/// The one header for a single signature whose 32-byte key, 64-byte
/// signature and message of `msg_len` bytes follow it directly.
pub open spec fn expected_header(msg_len: int) -> Ed25519Header
    recommends
        0 <= msg_len <= MAX_MESSAGE_LEN,
{
    Ed25519Header {
        num_signatures: 1,
        padding: 0,
        signature_offset: (HEADER_LEN + PUBKEY_LEN) as u16,
        signature_instruction_index: THIS_INSTRUCTION,
        public_key_offset: HEADER_LEN as u16,
        public_key_instruction_index: THIS_INSTRUCTION,
        message_data_offset: MESSAGE_OFFSET as u16,
        message_data_size: msg_len as u16,
        message_instruction_index: THIS_INSTRUCTION,
    }
}

/// The data of the ed25519 instruction over this key, signature and
/// message: the expected header, then the key, the signature and the
/// message.
pub open spec fn ed25519_data(pubkey: Seq<u8>, sig: Seq<u8>, msg: Seq<u8>) -> Seq<u8>
    recommends
        pubkey.len() == PUBKEY_LEN,
        sig.len() == SIGNATURE_LEN,
        msg.len() <= MAX_MESSAGE_LEN,
{
    expected_header(msg.len() as int).to_bytes() + pubkey + sig + msg
}

/// Two bytes written in little-endian order read back as the same number.
pub proof fn lemma_u16_le_round_trip(v: int)
    requires
        0 <= v <= 0xFFFF,
    ensures
        u16_le_bytes(v).len() == 2,
        le_u16_at(u16_le_bytes(v), 0) == v,
{
}

/// Two bytes are the little-endian form of the number they read as, and of
/// no other.
pub proof fn lemma_le_u16_determines_bytes(lo: u8, hi: u8)
    ensures
        0 <= le_u16(lo, hi) <= 0xFFFF,
        u16_le_bytes(le_u16(lo, hi)) == seq![lo, hi],
{
    assert(u16_le_bytes(le_u16(lo, hi)) =~= seq![lo, hi]);
}

/// A header spelled out as bytes reads back as itself, whatever follows it.
pub proof fn lemma_header_round_trip(h: Ed25519Header, tail: Seq<u8>)
    ensures
        h.to_bytes().len() == HEADER_LEN,
        header_of(h.to_bytes() + tail) == h,
{
    lemma_u16_le_round_trip(h.signature_offset as int);
    lemma_u16_le_round_trip(h.signature_instruction_index as int);
    lemma_u16_le_round_trip(h.public_key_offset as int);
    lemma_u16_le_round_trip(h.public_key_instruction_index as int);
    lemma_u16_le_round_trip(h.message_data_offset as int);
    lemma_u16_le_round_trip(h.message_data_size as int);
    lemma_u16_le_round_trip(h.message_instruction_index as int);
}

/// The first sixteen bytes of any data are the bytes of the header they
/// spell.
pub proof fn lemma_header_bytes_determined(data: Seq<u8>)
    requires
        data.len() >= HEADER_LEN,
    ensures
        data.take(HEADER_LEN as int) == header_of(data).to_bytes(),
{
    lemma_le_u16_determines_bytes(data[2], data[3]);
    lemma_le_u16_determines_bytes(data[4], data[5]);
    lemma_le_u16_determines_bytes(data[6], data[7]);
    lemma_le_u16_determines_bytes(data[8], data[9]);
    lemma_le_u16_determines_bytes(data[10], data[11]);
    lemma_le_u16_determines_bytes(data[12], data[13]);
    lemma_le_u16_determines_bytes(data[14], data[15]);
    assert(data.take(HEADER_LEN as int) =~= header_of(data).to_bytes());
}

/// Data constructed as the layout prescribes is accepted: for every
/// 32-byte key, 64-byte signature and message of at most 65535 bytes, the
/// expected header followed by key, signature and message is ed25519 data
/// over them.
pub proof fn lemma_constructed_data_is_accepted(pubkey: Seq<u8>, sig: Seq<u8>, msg: Seq<u8>)
    requires
        pubkey.len() == PUBKEY_LEN,
        sig.len() == SIGNATURE_LEN,
        msg.len() <= MAX_MESSAGE_LEN,
    ensures
        ed25519_data(pubkey, sig, msg).len() == MESSAGE_OFFSET + msg.len(),
        is_ed25519_data(ed25519_data(pubkey, sig, msg), pubkey, msg, sig),
{
    let h = expected_header(msg.len() as int);
    let data = ed25519_data(pubkey, sig, msg);
    lemma_header_round_trip(h, pubkey + sig + msg);
    assert(data =~= h.to_bytes() + (pubkey + sig + msg));
    assert(data.subrange(HEADER_LEN as int, HEADER_LEN + PUBKEY_LEN) =~= pubkey);
    assert(data.subrange(HEADER_LEN + PUBKEY_LEN, MESSAGE_OFFSET as int) =~= sig);
    assert(data.subrange(MESSAGE_OFFSET as int, data.len() as int) =~= msg);
}

/// Accepted data is the constructed data and nothing else: if `data` is
/// ed25519 data over a key, signature and message, then the key has 32
/// bytes, the signature 64, the message at most 65535, and `data` is
/// byte for byte the expected header followed by the three.
pub proof fn lemma_accepted_data_is_constructed(
    data: Seq<u8>,
    pubkey: Seq<u8>,
    msg: Seq<u8>,
    sig: Seq<u8>,
)
    requires
        is_ed25519_data(data, pubkey, msg, sig),
    ensures
        pubkey.len() == PUBKEY_LEN,
        sig.len() == SIGNATURE_LEN,
        msg.len() <= MAX_MESSAGE_LEN,
        header_of(data) == expected_header(msg.len() as int),
        data == ed25519_data(pubkey, sig, msg),
{
    lemma_header_bytes_determined(data);
    assert(data =~= data.take(HEADER_LEN as int) + pubkey + sig + msg);
}

/// Changing any single byte of the header of accepted data, to any other
/// value, makes the data unacceptable.
pub proof fn lemma_changed_header_byte_is_rejected(
    data: Seq<u8>,
    pubkey: Seq<u8>,
    msg: Seq<u8>,
    sig: Seq<u8>,
    at: int,
    byte: u8,
)
    requires
        is_ed25519_data(data, pubkey, msg, sig),
        0 <= at < HEADER_LEN,
        byte != data[at],
    ensures
        !is_ed25519_data(data.update(at, byte), pubkey, msg, sig),
{
    let changed = data.update(at, byte);
    if is_ed25519_data(changed, pubkey, msg, sig) {
        lemma_accepted_data_is_constructed(data, pubkey, msg, sig);
        lemma_accepted_data_is_constructed(changed, pubkey, msg, sig);
        assert(changed[at] == data[at]);
    }
}

/// Data in which any of the three instruction-index fields is not
/// `THIS_INSTRUCTION` is unacceptable, whatever the other fields and the
/// regions hold.
pub proof fn lemma_instruction_index_must_be_this(
    data: Seq<u8>,
    pubkey: Seq<u8>,
    msg: Seq<u8>,
    sig: Seq<u8>,
)
    requires
        header_of(data).signature_instruction_index != THIS_INSTRUCTION || header_of(
            data,
        ).public_key_instruction_index != THIS_INSTRUCTION || header_of(
            data,
        ).message_instruction_index != THIS_INSTRUCTION,
    ensures
        !is_ed25519_data(data, pubkey, msg, sig),
{
}

/// Data whose size field differs from the length of the message is
/// unacceptable, even where the bytes behind the header are the message's.
pub proof fn lemma_size_field_must_match(
    data: Seq<u8>,
    pubkey: Seq<u8>,
    msg: Seq<u8>,
    sig: Seq<u8>,
)
    requires
        header_of(data).message_data_size != msg.len(),
    ensures
        !is_ed25519_data(data, pubkey, msg, sig),
{
}

} // verus!
