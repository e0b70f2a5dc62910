use osp_bridge::error::ProofError;
use osp_bridge::model::{Journal, Mode};

#[test]
fn native_journal_is_the_bare_hash() {
    let journal = Journal::PostHash { post_hash: [0x9C; 32] };
    assert_eq!(journal.to_bytes(), vec![0x9C; 32]);
}

#[test]
fn abi_journal_is_sixty_four_bytes() {
    let journal = Journal::Transition { pre_hash: [0x01; 32], post_hash: [0x02; 32] };
    let bytes = journal.to_bytes();
    assert_eq!(bytes.len(), 64);
    assert_eq!(&bytes[..32], &[0x01; 32]);
    assert_eq!(&bytes[32..], &[0x02; 32]);
}

#[test]
fn abi_journal_agrees_with_the_abi_encoder() {
    let journal = Journal::Transition { pre_hash: [0xAB; 32], post_hash: [0xCD; 32] };
    let direct = ethabi::encode(&[
        ethabi::Token::FixedBytes(vec![0xAB; 32]),
        ethabi::Token::FixedBytes(vec![0xCD; 32]),
    ]);
    assert_eq!(journal.to_bytes(), direct);
}

#[test]
fn native_journal_round_trip() {
    let journal = Journal::PostHash { post_hash: [0x31; 32] };
    assert_eq!(Journal::from_bytes(Mode::Native, &journal.to_bytes()), Ok(journal));
}

#[test]
fn abi_journal_round_trip() {
    let mut pre_hash = [0u8; 32];
    let mut post_hash = [0u8; 32];
    for i in 0..32 {
        pre_hash[i] = i as u8;
        post_hash[i] = 0xF0 ^ i as u8;
    }
    let journal = Journal::Transition { pre_hash, post_hash };
    assert_eq!(Journal::from_bytes(Mode::Abi, &journal.to_bytes()), Ok(journal));
}

#[test]
fn journal_of_the_other_mode_is_rejected() {
    let native = Journal::PostHash { post_hash: [1; 32] }.to_bytes();
    let abi = Journal::Transition { pre_hash: [1; 32], post_hash: [2; 32] }.to_bytes();
    assert_eq!(Journal::from_bytes(Mode::Abi, &native), Err(ProofError::Decode));
    assert_eq!(Journal::from_bytes(Mode::Native, &abi), Err(ProofError::Decode));
}

#[test]
fn journal_of_a_wrong_width_is_rejected() {
    assert_eq!(Journal::from_bytes(Mode::Native, &[0; 31]), Err(ProofError::Decode));
    assert_eq!(Journal::from_bytes(Mode::Native, &[0; 33]), Err(ProofError::Decode));
    assert_eq!(Journal::from_bytes(Mode::Native, &[]), Err(ProofError::Decode));
    assert_eq!(Journal::from_bytes(Mode::Abi, &[0; 63]), Err(ProofError::Decode));
    assert_eq!(Journal::from_bytes(Mode::Abi, &[0; 65]), Err(ProofError::Decode));
    assert_eq!(Journal::from_bytes(Mode::Abi, &[]), Err(ProofError::Decode));
}
