//! The life of one dispute proof, from the first instruction to its acceptance
//! or rejection, and
//! how the steps of host and guest move along it.

use crate::codec::{journal_wire, lemma_submission_wire_is_injective, MAX_PROOF_BYTES};
use crate::environment::{envelope_blocks, envelope_of};
use crate::error::ProofError;
use crate::generator::{generator_step, GeneratorEventModel, GeneratorModel, GeneratorState};
use crate::model::{Checkpoint, GeneratedModel, JournalModel, Mode};
use crate::replay::{
    lemma_abi_replay, lemma_native_replay, replay_run, replay_step, ActionModel, EventModel,
    ReplayState, StateModel,
};
use vstd::prelude::*;

verus! {

/// Where a dispute proof stands.
#[derive(Clone, Copy, Debug, PartialEq, Eq, Structural)]
pub enum Phase {
    /// No run has stopped at a checkpoint yet.
    Unstarted,
    /// The run stopped at `checkpoint`, short of its natural end.
    Running { checkpoint: Checkpoint },
    /// The proof anchored at the checkpoint is complete.
    ProofGenerated,
    /// The proof was handed to the guest.
    Submitted,
    /// The guest replayed the step and committed a journal. Final.
    Verified,
    /// The guest failed and committed nothing. Final.
    Rejected,
}

/// What moves a dispute proof from one phase to the next.
#[derive(Clone, Copy, Debug, PartialEq, Eq, Structural)]
pub enum Progress {
    /// The step budget was used up at `checkpoint`.
    Paused { checkpoint: Checkpoint },
    /// The proof was extracted at the checkpoint and checked.
    Extracted,
    /// The proof was handed to the guest.
    Submitted,
    /// The guest replayed the step (and, in native mode, found the expected hash).
    Replayed,
    /// The guest could not decode or replay, or found another hash.
    Failed,
}

/// The phase that follows, or `None` where the progress does not apply to the
/// phase. `Verified` and `Rejected` are followed by nothing.
pub open spec fn next_phase(phase: Phase, progress: Progress) -> Option<Phase> {
    match (phase, progress) {
        (Phase::Unstarted, Progress::Paused { checkpoint }) => Some(Phase::Running { checkpoint }),
        (Phase::Running { .. }, Progress::Extracted) => Some(Phase::ProofGenerated),
        (Phase::ProofGenerated, Progress::Submitted) => Some(Phase::Submitted),
        (Phase::Submitted, Progress::Replayed) => Some(Phase::Verified),
        (Phase::Submitted, Progress::Failed) => Some(Phase::Rejected),
        _ => None,
    }
}

/// Moves a dispute proof on by one phase.
pub fn advance(phase: Phase, progress: Progress) -> (r: Option<Phase>)
    ensures
        r == next_phase(phase, progress),
{
    match (phase, progress) {
        (Phase::Unstarted, Progress::Paused { checkpoint }) => Some(Phase::Running { checkpoint }),
        (Phase::Running { .. }, Progress::Extracted) => Some(Phase::ProofGenerated),
        (Phase::ProofGenerated, Progress::Submitted) => Some(Phase::Submitted),
        (Phase::Submitted, Progress::Replayed) => Some(Phase::Verified),
        (Phase::Submitted, Progress::Failed) => Some(Phase::Rejected),
        _ => None,
    }
}

/// The phase of a generation on the host. A failed generation has none: the
/// attempt is over and its proof, if any, is never submitted.
pub open spec fn generator_phase(state: GeneratorModel) -> Option<Phase> {
    match state {
        GeneratorModel::Instantiating { .. } => Some(Phase::Unstarted),
        GeneratorModel::Calling { .. } => Some(Phase::Unstarted),
        GeneratorModel::Extracting { checkpoint, .. } => Some(Phase::Running { checkpoint }),
        GeneratorModel::Checking { checkpoint, .. } => Some(Phase::Running { checkpoint }),
        GeneratorModel::Generated { .. } => Some(Phase::ProofGenerated),
        GeneratorModel::Failed { .. } => None,
    }
}

/// The phase of a replay on the guest.
pub open spec fn replay_phase(state: StateModel) -> Phase {
    match state {
        StateModel::Verified { .. } => Phase::Verified,
        StateModel::Rejected { .. } => Phase::Rejected,
        _ => Phase::Submitted,
    }
}

impl GeneratorState {
    /// The phase of this generation.
    pub fn phase(&self) -> (r: Option<Phase>)
        ensures
            r == generator_phase(self@),
    {
        match self {
            GeneratorState::Instantiating { .. } => Some(Phase::Unstarted),
            GeneratorState::Calling { .. } => Some(Phase::Unstarted),
            GeneratorState::Extracting { checkpoint, .. } => Some(
                Phase::Running { checkpoint: *checkpoint },
            ),
            GeneratorState::Checking { checkpoint, .. } => Some(
                Phase::Running { checkpoint: *checkpoint },
            ),
            GeneratorState::Generated { .. } => Some(Phase::ProofGenerated),
            GeneratorState::Failed { .. } => None,
        }
    }
}

impl ReplayState {
    /// The phase of this replay.
    pub fn phase(&self) -> (r: Phase)
        ensures
            r == replay_phase(self@),
    {
        match self {
            ReplayState::Verified { .. } => Phase::Verified,
            ReplayState::Rejected { .. } => Phase::Rejected,
            _ => Phase::Submitted,
        }
    }
}

/// `Verified` and `Rejected` are final.
pub proof fn lemma_last_phases_are_final(phase: Phase, progress: Progress)
    requires
        phase is Verified || phase is Rejected,
    ensures
        next_phase(phase, progress) is None,
{
}

/// A step of the host that does not fail keeps the phase or moves it on by one:
/// to `Running` when the budget is used up at a checkpoint, to `ProofGenerated`
/// when the proof built there has been checked.
pub proof fn lemma_generator_step_follows_lifecycle(
    state: GeneratorModel,
    event: GeneratorEventModel,
)
    requires
        generator_step(state, event) matches Some((next, _)) && !(next is Failed),
    ensures
        ({
            let (next, _) = generator_step(state, event)->0;
            let before = generator_phase(state)->0;
            let after = generator_phase(next)->0;
            &&& generator_phase(state) is Some
            &&& generator_phase(next) is Some
            &&& after == before || (event matches GeneratorEventModel::Exhausted { pc }
                && next_phase(before, Progress::Paused { checkpoint: Checkpoint { pc } }) == Some(
                after,
            )) || (event is Checked && next_phase(before, Progress::Extracted) == Some(after))
        }),
{
}

/// A step of the guest keeps the proof in `Submitted` or ends its life: in
/// `Verified` by a replay that succeeded, in `Rejected` by one that failed.
pub proof fn lemma_replay_step_follows_lifecycle(state: StateModel, event: EventModel)
    requires
        replay_step(state, event) is Some,
    ensures
        ({
            let (next, _) = replay_step(state, event)->0;
            &&& replay_phase(state) == Phase::Submitted
            &&& replay_phase(next) == Phase::Submitted || (next is Verified && next_phase(
                Phase::Submitted,
                Progress::Replayed,
            ) == Some(replay_phase(next))) || (next is Rejected && next_phase(
                Phase::Submitted,
                Progress::Failed,
            ) == Some(replay_phase(next)))
        }),
{
}

/// Native mode, from host to guest. The host submits a generated proof, whose
/// announced hash is the one it computed itself after the step. A guest that
/// reads those blocks and observes the hash `observed` after the step commits
/// exactly the host's hash if it observed the same; otherwise the run ends in a
/// hash mismatch.
pub proof fn lemma_native_submission(generated: GeneratedModel, observed: Seq<u8>)
    requires
        generated.post_hash.len() == 32,
        observed.len() == 32,
    ensures
        ({
            let run = replay_run(
                StateModel::AwaitingInput { mode: Mode::Native },
                seq![
                    EventModel::Input {
                        blocks: envelope_blocks(envelope_of(Mode::Native, generated)),
                    },
                    EventModel::Loaded,
                    EventModel::Ran,
                    EventModel::Hashed { hash: observed },
                ],
            );
            let (last, actions) = run->0;
            &&& run is Some
            &&& observed == generated.post_hash ==> last == (StateModel::Verified {
                journal: JournalModel::PostHash { post_hash: generated.post_hash },
            }) && actions.last() == (ActionModel::Commit { journal: generated.post_hash })
            &&& observed != generated.post_hash ==> last == (StateModel::Rejected {
                reason: ProofError::HashMismatch,
            })
        }),
{
    lemma_native_replay(
        generated.osp_proof_bytes,
        generated.code_proof_bytes,
        generated.post_hash,
        observed,
    );
    assert(envelope_blocks(envelope_of(Mode::Native, generated)) =~= seq![
        generated.osp_proof_bytes,
        generated.code_proof_bytes,
        generated.post_hash,
    ]);
}

/// ABI mode, from host to guest. The host submits a generated proof. A guest
/// that reads that block and observes the same two hashes as the host did when
/// it checked the proof commits the ABI tuple of exactly those hashes: the
/// journal can be had again by running the step on the host.
pub proof fn lemma_abi_submission(generated: GeneratedModel)
    requires
        generated.code_proof.inst_root.len() == 32,
        generated.code_proof.func_root.len() == 32,
        generated.osp_proof_bytes.len() <= MAX_PROOF_BYTES,
        generated.pre_hash.len() == 32,
        generated.post_hash.len() == 32,
    ensures
        ({
            let run = replay_run(
                StateModel::AwaitingInput { mode: Mode::Abi },
                seq![
                    EventModel::Input {
                        blocks: envelope_blocks(envelope_of(Mode::Abi, generated)),
                    },
                    EventModel::Loaded,
                    EventModel::Hashed { hash: generated.pre_hash },
                    EventModel::Ran,
                    EventModel::Hashed { hash: generated.post_hash },
                ],
            );
            let (last, actions) = run->0;
            &&& run is Some
            &&& last == (StateModel::Verified {
                journal: JournalModel::Transition {
                    pre_hash: generated.pre_hash,
                    post_hash: generated.post_hash,
                },
            })
            &&& actions.last() == (ActionModel::Commit {
                journal: journal_wire(generated.pre_hash, generated.post_hash),
            })
        }),
{
    lemma_abi_replay(
        generated.code_proof.inst_root,
        generated.code_proof.func_root,
        generated.osp_proof_bytes,
        generated.pre_hash,
        generated.post_hash,
    );
}

/// The input blocks are determined by the generated proof and the encoding:
/// equal proofs give byte-identical blocks. In ABI mode the converse holds too:
/// blocks that are equal speak of the same roots and the same proof bytes.
pub proof fn lemma_equal_proofs_equal_blocks(mode: Mode, first: GeneratedModel, second: GeneratedModel)
    requires
        first.code_proof.inst_root.len() == 32,
        first.code_proof.func_root.len() == 32,
        first.osp_proof_bytes.len() <= MAX_PROOF_BYTES,
        second.code_proof.inst_root.len() == 32,
        second.code_proof.func_root.len() == 32,
        second.osp_proof_bytes.len() <= MAX_PROOF_BYTES,
    ensures
        first == second ==> envelope_blocks(envelope_of(mode, first)) == envelope_blocks(
            envelope_of(mode, second),
        ),
        envelope_blocks(envelope_of(Mode::Abi, first)) == envelope_blocks(
            envelope_of(Mode::Abi, second),
        ) ==> first.code_proof == second.code_proof && first.osp_proof_bytes
            == second.osp_proof_bytes,
{
    let a = envelope_blocks(envelope_of(Mode::Abi, first));
    let b = envelope_blocks(envelope_of(Mode::Abi, second));
    if a == b {
        assert(a[0] == b[0]);
        lemma_submission_wire_is_injective(
            first.code_proof.inst_root,
            first.code_proof.func_root,
            first.osp_proof_bytes,
            second.code_proof.inst_root,
            second.code_proof.func_root,
            second.osp_proof_bytes,
        );
    }
}

} // verus!
