use sigverify::error::Rejection;
use sigverify::instruction::{Instruction, Opcode, LENGTH_PREFIX_LEN};

fn request(signer: &[u8; 32], message: &[u8], sig: &[u8; 64]) -> Vec<u8> {
    let mut buf = vec![0u8];
    buf.extend_from_slice(signer);
    buf.extend_from_slice(&(message.len() as u32).to_le_bytes());
    buf.extend_from_slice(message);
    buf.extend_from_slice(sig);
    buf
}

fn malformed() -> Result<Instruction, Rejection> {
    Err(Rejection::MalformedRequest)
}

#[test]
fn empty_buffer_is_malformed() {
    assert_eq!(Instruction::unpack(&[]), malformed());
}

#[test]
fn unknown_opcode_is_malformed() {
    let good = request(&[1u8; 32], b"hello", &[2u8; 64]);
    assert_eq!(Instruction::unpack(&[1]), malformed());
    for tag in [1u8, 2, 0x7F, 0xFF] {
        let mut buf = good.clone();
        buf[0] = tag;
        assert_eq!(Instruction::unpack(&buf), malformed());
    }
}

#[test]
fn opcode_zero_is_verify_signature() {
    assert_eq!(Opcode::from_byte(0), Some(Opcode::VerifySignature));
    assert_eq!(Opcode::from_byte(1), None);
    assert_eq!(Opcode::from_byte(255), None);
    assert_eq!(LENGTH_PREFIX_LEN, 4);
}

#[test]
fn request_decodes_to_its_three_fields() {
    let mut signer = [0u8; 32];
    let mut sig = [0u8; 64];
    for i in 0..32 {
        signer[i] = i as u8 + 1;
    }
    for i in 0..64 {
        sig[i] = 200 - i as u8;
    }
    let buf = request(&signer, b"hello", &sig);
    assert_eq!(buf.len(), 1 + 32 + 4 + 5 + 64);
    assert_eq!(
        Instruction::unpack(&buf),
        Ok(Instruction::VerifySignature { signer, message: b"hello".to_vec(), sig })
    );
}

#[test]
fn empty_message_decodes() {
    let buf = request(&[7u8; 32], b"", &[8u8; 64]);
    assert_eq!(
        Instruction::unpack(&buf),
        Ok(Instruction::VerifySignature {
            signer: [7u8; 32],
            message: Vec::new(),
            sig: [8u8; 64]
        })
    );
}

#[test]
fn multi_byte_text_message_decodes() {
    let text = "gr\u{00FC}\u{00DF} \u{4E16}\u{754C} \u{1F600}";
    let buf = request(&[0u8; 32], text.as_bytes(), &[0u8; 64]);
    assert_eq!(
        Instruction::unpack(&buf),
        Ok(Instruction::VerifySignature {
            signer: [0u8; 32],
            message: text.as_bytes().to_vec(),
            sig: [0u8; 64]
        })
    );
}

#[test]
fn message_of_arbitrary_bytes_decodes() {
    for bytes in [&[0xFFu8][..], &[0xC3][..], &[b'a', 0x80, b'b'][..], &[0xED, 0xA0, 0x80][..]] {
        let buf = request(&[0u8; 32], bytes, &[0u8; 64]);
        assert_eq!(
            Instruction::unpack(&buf),
            Ok(Instruction::VerifySignature {
                signer: [0u8; 32],
                message: bytes.to_vec(),
                sig: [0u8; 64]
            })
        );
    }
}

#[test]
fn one_byte_message_decodes_from_its_exact_encoding() {
    let mut buf = vec![0u8];
    buf.extend_from_slice(&[0u8; 32]);
    buf.extend_from_slice(&[1, 0, 0, 0]);
    buf.push(0xFF);
    buf.extend_from_slice(&[0u8; 64]);
    assert_eq!(
        Instruction::unpack(&buf),
        Ok(Instruction::VerifySignature { signer: [0u8; 32], message: vec![0xFF], sig: [0u8; 64] })
    );
}

#[test]
fn message_of_every_byte_value_decodes() {
    let message: Vec<u8> = (0u8..=255).collect();
    let buf = request(&[9u8; 32], &message, &[8u8; 64]);
    assert_eq!(
        Instruction::unpack(&buf),
        Ok(Instruction::VerifySignature { signer: [9u8; 32], message, sig: [8u8; 64] })
    );
}

#[test]
fn truncated_payload_is_malformed() {
    let good = request(&[3u8; 32], b"hello", &[4u8; 64]);
    assert!(Instruction::unpack(&good).is_ok());
    for len in 1..good.len() {
        assert_eq!(Instruction::unpack(&good[..len]), malformed());
    }
}

#[test]
fn trailing_bytes_are_malformed() {
    let mut buf = request(&[3u8; 32], b"hello", &[4u8; 64]);
    buf.push(0);
    assert_eq!(Instruction::unpack(&buf), malformed());
}

#[test]
fn length_prefix_must_count_the_message() {
    let good = request(&[3u8; 32], b"hello", &[4u8; 64]);
    for wrong in [0u32, 4, 6, 69, 0x0100_0005, u32::MAX] {
        let mut buf = good.clone();
        buf[33..37].copy_from_slice(&wrong.to_le_bytes());
        assert_eq!(Instruction::unpack(&buf), malformed());
    }
}

#[test]
fn opcode_alone_is_malformed() {
    assert_eq!(Instruction::unpack(&[0]), malformed());
}

#[test]
fn long_message_decodes() {
    let message = vec![b'x'; 70000];
    let buf = request(&[1u8; 32], &message, &[2u8; 64]);
    assert_eq!(
        Instruction::unpack(&buf),
        Ok(Instruction::VerifySignature { signer: [1u8; 32], message, sig: [2u8; 64] })
    );
}
