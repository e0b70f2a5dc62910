use osp_bridge::codec::{
    decode_journal, decode_submission, encode_journal, encode_submission, is_proof_encodable,
    to_hash, MAX_NARROW_PROOF_BYTES, MAX_PROOF_BYTES,
};
use osp_bridge::error::ProofError;

fn word(n: u32) -> Vec<u8> {
    let mut w = vec![0u8; 28];
    w.extend_from_slice(&n.to_be_bytes());
    w
}

fn proof_of_len(len: usize) -> Vec<u8> {
    (0..len).map(|i| (i % 251) as u8 + 1).collect()
}

fn expected_wire(inst: &[u8; 32], func: &[u8; 32], proof: &[u8]) -> Vec<u8> {
    let mut out = Vec::new();
    out.extend_from_slice(inst);
    out.extend_from_slice(func);
    out.extend_from_slice(&word(96));
    out.extend_from_slice(&word(proof.len() as u32));
    out.extend_from_slice(proof);
    while out.len() % 32 != 0 {
        out.push(0);
    }
    out
}

#[test]
fn submission_bytes_are_roots_offset_length_and_padded_proof() {
    let inst = [0x11u8; 32];
    let func = [0x22u8; 32];
    let out = encode_submission(&inst, &func, &[0xAA, 0xBB, 0xCC]);
    assert_eq!(out.len(), 160);
    assert_eq!(&out[0..32], &[0x11u8; 32]);
    assert_eq!(&out[32..64], &[0x22u8; 32]);
    assert_eq!(&out[64..95], &[0u8; 31]);
    assert_eq!(out[95], 96);
    assert_eq!(&out[96..127], &[0u8; 31]);
    assert_eq!(out[127], 3);
    assert_eq!(&out[128..131], &[0xAA, 0xBB, 0xCC]);
    assert_eq!(&out[131..160], &[0u8; 29]);
}

#[test]
fn submission_with_empty_proof_is_four_words() {
    let inst = [1u8; 32];
    let func = [2u8; 32];
    let out = encode_submission(&inst, &func, &[]);
    assert_eq!(out, expected_wire(&inst, &func, &[]));
    assert_eq!(out.len(), 128);
}

#[test]
fn submission_with_whole_word_proof_has_no_padding() {
    let inst = [3u8; 32];
    let func = [4u8; 32];
    let proof = proof_of_len(64);
    let out = encode_submission(&inst, &func, &proof);
    assert_eq!(out.len(), 128 + 64);
    assert_eq!(out, expected_wire(&inst, &func, &proof));
}

#[test]
fn submission_length_word_is_big_endian() {
    let inst = [5u8; 32];
    let func = [6u8; 32];
    let proof = proof_of_len(0x1_0203);
    let out = encode_submission(&inst, &func, &proof);
    assert_eq!(&out[124..128], &[0x00, 0x01, 0x02, 0x03]);
    assert_eq!(out, expected_wire(&inst, &func, &proof));
}

#[test]
fn submission_agrees_with_the_abi_encoder() {
    let inst = [7u8; 32];
    let func = [8u8; 32];
    let proof = proof_of_len(77);
    let direct = ethabi::encode(&[
        ethabi::Token::FixedBytes(inst.to_vec()),
        ethabi::Token::FixedBytes(func.to_vec()),
        ethabi::Token::Bytes(proof.clone()),
    ]);
    assert_eq!(encode_submission(&inst, &func, &proof), direct);
}

#[test]
fn round_trip_of_an_empty_proof() {
    let inst = [9u8; 32];
    let func = [10u8; 32];
    let wire = encode_submission(&inst, &func, &[]);
    assert_eq!(decode_submission(&wire), Ok((inst, func, Vec::new())));
}

#[test]
fn round_trip_of_a_one_byte_proof() {
    let inst = [11u8; 32];
    let func = [12u8; 32];
    let wire = encode_submission(&inst, &func, &[0x7F]);
    assert_eq!(decode_submission(&wire), Ok((inst, func, vec![0x7F])));
}

#[test]
fn round_trip_of_a_proof_of_more_than_a_thousand_bytes() {
    let mut inst = [0u8; 32];
    let mut func = [0u8; 32];
    for i in 0..32 {
        inst[i] = i as u8;
        func[i] = 255 - i as u8;
    }
    let proof = proof_of_len(1027);
    let wire = encode_submission(&inst, &func, &proof);
    assert_eq!(wire.len(), 128 + 1056);
    assert_eq!(decode_submission(&wire), Ok((inst, func, proof)));
}

#[test]
fn decoding_ignores_bytes_that_nothing_refers_to() {
    let inst = [13u8; 32];
    let func = [14u8; 32];
    let mut wire = encode_submission(&inst, &func, &[1, 2, 3]);
    wire.extend_from_slice(&[0xEE; 40]);
    assert_eq!(decode_submission(&wire), Ok((inst, func, vec![1, 2, 3])));
}

#[test]
fn decoding_follows_the_offset_word() {
    let inst = [15u8; 32];
    let func = [16u8; 32];
    let mut wire = Vec::new();
    wire.extend_from_slice(&inst);
    wire.extend_from_slice(&func);
    wire.extend_from_slice(&word(128));
    wire.extend_from_slice(&[0xEE; 32]);
    wire.extend_from_slice(&word(2));
    wire.extend_from_slice(&[0xCA, 0xFE]);
    assert_eq!(decode_submission(&wire), Ok((inst, func, vec![0xCA, 0xFE])));
}

#[test]
fn decoding_empty_input_fails() {
    assert_eq!(decode_submission(&[]), Err(ProofError::Decode));
}

#[test]
fn decoding_fewer_than_three_words_fails() {
    let wire = encode_submission(&[1u8; 32], &[2u8; 32], &[]);
    assert_eq!(decode_submission(&wire[..95]), Err(ProofError::Decode));
    assert_eq!(decode_submission(&wire[..64]), Err(ProofError::Decode));
    assert_eq!(decode_submission(&wire[..31]), Err(ProofError::Decode));
}

#[test]
fn decoding_without_the_length_word_fails() {
    let wire = encode_submission(&[1u8; 32], &[2u8; 32], &[]);
    assert_eq!(decode_submission(&wire[..127]), Err(ProofError::Decode));
    assert_eq!(decode_submission(&wire[..96]), Err(ProofError::Decode));
}

#[test]
fn decoding_a_truncated_proof_fails() {
    let wire = encode_submission(&[1u8; 32], &[2u8; 32], &proof_of_len(40));
    assert!(decode_submission(&wire[..128 + 40]).is_ok());
    assert_eq!(decode_submission(&wire[..128 + 39]), Err(ProofError::Decode));
}

#[test]
fn decoding_an_offset_beyond_the_data_fails() {
    let mut wire = encode_submission(&[1u8; 32], &[2u8; 32], &[9, 9]);
    wire[95] = 200;
    assert_eq!(decode_submission(&wire), Err(ProofError::Decode));
    wire[92] = 0xFF;
    wire[93] = 0xFF;
    wire[94] = 0xFF;
    wire[95] = 0xFF;
    assert_eq!(decode_submission(&wire), Err(ProofError::Decode));
}

#[test]
fn decoding_a_word_with_a_nonzero_upper_byte_fails() {
    let good = encode_submission(&[1u8; 32], &[2u8; 32], &[9, 9]);
    let mut wire = good.clone();
    wire[64] = 1;
    assert_eq!(decode_submission(&wire), Err(ProofError::Decode));
    let mut wire = good.clone();
    wire[91] = 1;
    assert_eq!(decode_submission(&wire), Err(ProofError::Decode));
    let mut wire = good;
    wire[96] = 1;
    assert_eq!(decode_submission(&wire), Err(ProofError::Decode));
}

#[test]
fn decoding_a_length_beyond_the_data_fails() {
    let mut wire = encode_submission(&[1u8; 32], &[2u8; 32], &[9, 9]);
    wire[127] = 33;
    assert_eq!(decode_submission(&wire), Err(ProofError::Decode));
    wire[127] = 32;
    assert_eq!(decode_submission(&wire), Ok(([1u8; 32], [2u8; 32], wire[128..160].to_vec())));
}

#[test]
fn journal_is_the_two_hashes_in_order() {
    let pre = [0xA1u8; 32];
    let post = [0xB2u8; 32];
    let out = encode_journal(&pre, &post);
    assert_eq!(out.len(), 64);
    assert_eq!(&out[..32], &pre);
    assert_eq!(&out[32..], &post);
}

#[test]
fn journal_round_trip() {
    let mut pre = [0u8; 32];
    let mut post = [0u8; 32];
    for i in 0..32 {
        pre[i] = 3 * i as u8;
        post[i] = 200 - i as u8;
    }
    assert_eq!(decode_journal(&encode_journal(&pre, &post)), Ok((pre, post)));
}

#[test]
fn journal_of_any_other_length_fails() {
    let wire = encode_journal(&[1u8; 32], &[2u8; 32]);
    assert_eq!(decode_journal(&wire[..63]), Err(ProofError::Decode));
    assert_eq!(decode_journal(&wire[..32]), Err(ProofError::Decode));
    assert_eq!(decode_journal(&[]), Err(ProofError::Decode));
    let mut long = wire.clone();
    long.push(0);
    assert_eq!(decode_journal(&long), Err(ProofError::Decode));
    let mut longer = wire;
    longer.extend_from_slice(&[0u8; 32]);
    assert_eq!(decode_journal(&longer), Err(ProofError::Decode));
}

#[test]
fn to_hash_takes_exactly_thirty_two_bytes() {
    let bytes: Vec<u8> = (0..32).collect();
    let mut expected = [0u8; 32];
    for i in 0..32 {
        expected[i] = i as u8;
    }
    assert_eq!(to_hash(&bytes), Some(expected));
    assert_eq!(to_hash(&bytes[..31].to_vec()), None);
    assert_eq!(to_hash(&vec![0u8; 33]), None);
    assert_eq!(to_hash(&Vec::new()), None);
}

#[test]
fn proof_length_limit_is_that_of_the_machine() {
    assert!(is_proof_encodable(0));
    assert!(is_proof_encodable(1001));
    assert!(is_proof_encodable(MAX_NARROW_PROOF_BYTES));
    assert_eq!(MAX_PROOF_BYTES, 0xFFFF_FF60);
    assert_eq!(MAX_NARROW_PROOF_BYTES, 0x3FF_FF60);
    assert_eq!(is_proof_encodable(MAX_NARROW_PROOF_BYTES + 1), usize::BITS == 64);
    assert_eq!(is_proof_encodable(MAX_PROOF_BYTES), usize::BITS == 64);
    if usize::BITS == 64 {
        assert!(!is_proof_encodable(MAX_PROOF_BYTES + 1));
    }
}

#[test]
fn decoding_a_length_word_that_overruns_thirty_two_bits_fails() {
    let mut wire = encode_submission(&[1u8; 32], &[2u8; 32], &[9, 9]);
    for i in 124..128 {
        wire[i] = 0xFF;
    }
    assert_eq!(decode_submission(&wire), Err(ProofError::Decode));
    for i in 92..96 {
        wire[i] = 0xFF;
    }
    assert_eq!(decode_submission(&wire), Err(ProofError::Decode));
}
