use osp_bridge::codec::encode_submission;
use osp_bridge::error::ProofError;
use osp_bridge::lifecycle::Phase;
use osp_bridge::model::{CodeProof, Journal, Mode};
use osp_bridge::replay::{start, step, Anchor, CodeSource, ReplayAction, ReplayEvent, ReplayState};

fn native_blocks(expected: [u8; 32]) -> Vec<Vec<u8>> {
    vec![vec![0xAA, 0xBB], vec![0xCC], expected.to_vec()]
}

fn drive(state: ReplayState, events: Vec<ReplayEvent>) -> (ReplayState, Vec<ReplayAction>) {
    let mut state = state;
    let mut actions = Vec::new();
    for event in events {
        let (next, action) = step(state, event).unwrap();
        state = next;
        actions.push(action);
    }
    (state, actions)
}

#[test]
fn guest_starts_by_awaiting_input() {
    assert_eq!(start(Mode::Native), ReplayState::AwaitingInput { mode: Mode::Native });
    assert_eq!(start(Mode::Abi), ReplayState::AwaitingInput { mode: Mode::Abi });
    assert_eq!(start(Mode::Abi).phase(), Phase::Submitted);
}

#[test]
fn native_replay_commits_the_expected_hash() {
    let expected = [0x77u8; 32];
    let (state, actions) = drive(
        start(Mode::Native),
        vec![
            ReplayEvent::Input { blocks: native_blocks(expected) },
            ReplayEvent::Loaded,
            ReplayEvent::Ran,
            ReplayEvent::Hashed { hash: expected },
        ],
    );
    assert_eq!(state, ReplayState::Verified { journal: Journal::PostHash { post_hash: expected } });
    assert_eq!(
        actions,
        vec![
            ReplayAction::Load {
                osp_proof: vec![0xAA, 0xBB],
                code: CodeSource::Encoded { bytes: vec![0xCC] },
            },
            ReplayAction::Run,
            ReplayAction::Hash,
            ReplayAction::Commit { journal: expected.to_vec() },
        ]
    );
    assert_eq!(state.phase(), Phase::Verified);
}

#[test]
fn native_replay_with_a_tampered_expectation_commits_nothing() {
    let observed = [0x77u8; 32];
    let mut tampered = observed;
    tampered[5] ^= 0x80;
    let (state, actions) = drive(
        start(Mode::Native),
        vec![
            ReplayEvent::Input { blocks: native_blocks(tampered) },
            ReplayEvent::Loaded,
            ReplayEvent::Ran,
            ReplayEvent::Hashed { hash: observed },
        ],
    );
    assert_eq!(state, ReplayState::Rejected { reason: ProofError::HashMismatch });
    assert_eq!(actions[3], ReplayAction::Abort { reason: ProofError::HashMismatch });
    assert!(actions.iter().all(|a| !matches!(a, ReplayAction::Commit { .. })));
    assert_eq!(state.phase(), Phase::Rejected);
}

#[test]
fn abi_replay_commits_both_hashes() {
    let inst_root = [0x10u8; 32];
    let func_root = [0x20u8; 32];
    let pre_hash = [0x30u8; 32];
    let post_hash = [0x40u8; 32];
    let wire = encode_submission(&inst_root, &func_root, &[5, 6, 7]);
    let (state, actions) = drive(
        start(Mode::Abi),
        vec![
            ReplayEvent::Input { blocks: vec![wire] },
            ReplayEvent::Loaded,
            ReplayEvent::Hashed { hash: pre_hash },
            ReplayEvent::Ran,
            ReplayEvent::Hashed { hash: post_hash },
        ],
    );
    assert_eq!(
        state,
        ReplayState::Verified { journal: Journal::Transition { pre_hash, post_hash } }
    );
    let mut journal = pre_hash.to_vec();
    journal.extend_from_slice(&post_hash);
    assert_eq!(
        actions,
        vec![
            ReplayAction::Load {
                osp_proof: vec![5, 6, 7],
                code: CodeSource::Roots { code_proof: CodeProof { inst_root, func_root } },
            },
            ReplayAction::Hash,
            ReplayAction::Run,
            ReplayAction::Hash,
            ReplayAction::Commit { journal },
        ]
    );
}

#[test]
fn abi_replay_of_a_step_without_effect_commits_equal_hashes() {
    let hash = [0x55u8; 32];
    let wire = encode_submission(&[1; 32], &[2; 32], &[]);
    let (state, actions) = drive(
        start(Mode::Abi),
        vec![
            ReplayEvent::Input { blocks: vec![wire] },
            ReplayEvent::Loaded,
            ReplayEvent::Hashed { hash },
            ReplayEvent::Ran,
            ReplayEvent::Hashed { hash },
        ],
    );
    assert_eq!(
        state,
        ReplayState::Verified { journal: Journal::Transition { pre_hash: hash, post_hash: hash } }
    );
    assert_eq!(actions[4], ReplayAction::Commit { journal: vec![0x55; 64] });
}

#[test]
fn undecodable_input_is_rejected() {
    let r = step(start(Mode::Abi), ReplayEvent::Input { blocks: vec![vec![0; 95]] });
    assert_eq!(
        r,
        Some((
            ReplayState::Rejected { reason: ProofError::Decode },
            ReplayAction::Abort { reason: ProofError::Decode }
        ))
    );
    let r = step(start(Mode::Native), ReplayEvent::Input { blocks: vec![vec![1], vec![2]] });
    assert_eq!(
        r,
        Some((
            ReplayState::Rejected { reason: ProofError::Decode },
            ReplayAction::Abort { reason: ProofError::Decode }
        ))
    );
}

#[test]
fn proof_that_cannot_be_loaded_is_rejected() {
    for expected in [None, Some([3u8; 32])] {
        assert_eq!(
            step(ReplayState::Loading { expected }, ReplayEvent::LoadFailed),
            Some((
                ReplayState::Rejected { reason: ProofError::Decode },
                ReplayAction::Abort { reason: ProofError::Decode }
            ))
        );
    }
}

#[test]
fn step_that_cannot_be_run_is_rejected() {
    for anchor in
        [Anchor::Expected { post_hash: [1; 32] }, Anchor::Observed { pre_hash: [2; 32] }]
    {
        assert_eq!(
            step(ReplayState::Running { anchor }, ReplayEvent::RunFailed),
            Some((
                ReplayState::Rejected { reason: ProofError::Replay },
                ReplayAction::Abort { reason: ProofError::Replay }
            ))
        );
    }
}

#[test]
fn loaded_leads_to_run_in_native_mode_and_to_hash_in_abi_mode() {
    assert_eq!(
        step(ReplayState::Loading { expected: Some([9; 32]) }, ReplayEvent::Loaded),
        Some((
            ReplayState::Running { anchor: Anchor::Expected { post_hash: [9; 32] } },
            ReplayAction::Run
        ))
    );
    assert_eq!(
        step(ReplayState::Loading { expected: None }, ReplayEvent::Loaded),
        Some((ReplayState::HashingBefore, ReplayAction::Hash))
    );
}

#[test]
fn final_states_lead_nowhere() {
    let finals = [
        ReplayState::Verified { journal: Journal::PostHash { post_hash: [0; 32] } },
        ReplayState::Rejected { reason: ProofError::Replay },
    ];
    for state in finals {
        assert_eq!(step(state, ReplayEvent::Loaded), None);
        assert_eq!(step(state, ReplayEvent::LoadFailed), None);
        assert_eq!(step(state, ReplayEvent::Ran), None);
        assert_eq!(step(state, ReplayEvent::RunFailed), None);
        assert_eq!(step(state, ReplayEvent::Hashed { hash: [0; 32] }), None);
        assert_eq!(step(state, ReplayEvent::Input { blocks: Vec::new() }), None);
    }
}

#[test]
fn events_out_of_turn_lead_nowhere() {
    assert_eq!(step(start(Mode::Abi), ReplayEvent::Loaded), None);
    assert_eq!(step(start(Mode::Native), ReplayEvent::Hashed { hash: [0; 32] }), None);
    assert_eq!(step(ReplayState::HashingBefore, ReplayEvent::Ran), None);
    assert_eq!(step(ReplayState::HashingBefore, ReplayEvent::RunFailed), None);
    assert_eq!(step(ReplayState::Loading { expected: None }, ReplayEvent::Ran), None);
    let running = ReplayState::Running { anchor: Anchor::Observed { pre_hash: [0; 32] } };
    assert_eq!(step(running, ReplayEvent::Hashed { hash: [0; 32] }), None);
    assert_eq!(step(running, ReplayEvent::Loaded), None);
    let hashing = ReplayState::HashingAfter { anchor: Anchor::Observed { pre_hash: [0; 32] } };
    assert_eq!(step(hashing, ReplayEvent::Ran), None);
    assert_eq!(step(hashing, ReplayEvent::Input { blocks: vec![vec![]] }), None);
}
