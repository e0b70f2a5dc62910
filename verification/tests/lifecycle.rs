use osp_bridge::lifecycle::{advance, Phase, Progress};
use osp_bridge::model::Checkpoint;

const ALL_PROGRESS: [Progress; 5] = [
    Progress::Paused { checkpoint: Checkpoint { pc: 8 } },
    Progress::Extracted,
    Progress::Submitted,
    Progress::Replayed,
    Progress::Failed,
];

#[test]
fn lifecycle_runs_from_unstarted_to_verified() {
    let checkpoint = Checkpoint { pc: 8 };
    let phase = advance(Phase::Unstarted, Progress::Paused { checkpoint }).unwrap();
    assert_eq!(phase, Phase::Running { checkpoint });
    let phase = advance(phase, Progress::Extracted).unwrap();
    assert_eq!(phase, Phase::ProofGenerated);
    let phase = advance(phase, Progress::Submitted).unwrap();
    assert_eq!(phase, Phase::Submitted);
    assert_eq!(advance(phase, Progress::Replayed), Some(Phase::Verified));
}

#[test]
fn lifecycle_ends_in_rejected_when_the_guest_fails() {
    assert_eq!(advance(Phase::Submitted, Progress::Failed), Some(Phase::Rejected));
}

#[test]
fn verified_and_rejected_are_final() {
    for progress in ALL_PROGRESS {
        assert_eq!(advance(Phase::Verified, progress), None);
        assert_eq!(advance(Phase::Rejected, progress), None);
    }
}

#[test]
fn no_phase_is_skipped() {
    let running = Phase::Running { checkpoint: Checkpoint { pc: 1 } };
    assert_eq!(advance(Phase::Unstarted, Progress::Extracted), None);
    assert_eq!(advance(Phase::Unstarted, Progress::Submitted), None);
    assert_eq!(advance(Phase::Unstarted, Progress::Replayed), None);
    assert_eq!(advance(Phase::Unstarted, Progress::Failed), None);
    assert_eq!(advance(running, Progress::Submitted), None);
    assert_eq!(advance(running, Progress::Replayed), None);
    assert_eq!(advance(running, Progress::Paused { checkpoint: Checkpoint { pc: 2 } }), None);
    assert_eq!(advance(Phase::ProofGenerated, Progress::Replayed), None);
    assert_eq!(advance(Phase::ProofGenerated, Progress::Extracted), None);
    assert_eq!(advance(Phase::Submitted, Progress::Submitted), None);
    assert_eq!(advance(Phase::Submitted, Progress::Extracted), None);
}
