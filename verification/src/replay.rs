//! The guest: what it does with its input, one step at a time.
//!
//! The guest cannot decode, hash or run a one-step proof by itself; the
//! execution library does that. This file decides what is asked of the library
//! and in what order, and what follows from each answer. The caller performs the
//! action that [`step`] returns and comes back with the event that reports how
//! it went.

use crate::codec::{journal_wire, lemma_submission_round_trip, submission_wire, MAX_PROOF_BYTES};
use crate::environment::envelope_parse;
use crate::error::ProofError;
use crate::journal::journal_bytes;
use crate::model::{
    block_models, hash_eq, CodeProof, CodeProofModel, EnvelopeModel, Journal, JournalModel, Mode,
    ProofEnvelope,
};
use vstd::prelude::*;

verus! {

/// Where the guest takes the code commitment from.
#[derive(Debug, PartialEq, Eq)]
pub enum CodeSource {
    /// ABI mode: the two roots as the envelope supplies them.
    Roots { code_proof: CodeProof },
    /// Native mode: a serialised code proof, to be decoded by the library.
    Encoded { bytes: Vec<u8> },
}

/// What a [`CodeSource`] stands for.
pub enum CodeSourceModel {
    Roots { code_proof: CodeProofModel },
    Encoded { bytes: Seq<u8> },
}

impl View for CodeSource {
    type V = CodeSourceModel;

    open spec fn view(&self) -> CodeSourceModel {
        match self {
            CodeSource::Roots { code_proof } => CodeSourceModel::Roots { code_proof: code_proof@ },
            CodeSource::Encoded { bytes } => CodeSourceModel::Encoded { bytes: bytes@ },
        }
    }
}

/// The hash that the step is held against.
#[derive(Clone, Copy, Debug, PartialEq, Eq)]
pub enum Anchor {
    /// Native mode: the hash after the step, as the envelope announces it.
    Expected { post_hash: [u8; 32] },
    /// ABI mode: the hash before the step, as the guest computed it.
    Observed { pre_hash: [u8; 32] },
}

/// What an [`Anchor`] stands for.
pub enum AnchorModel {
    Expected { post_hash: Seq<u8> },
    Observed { pre_hash: Seq<u8> },
}

impl View for Anchor {
    type V = AnchorModel;

    open spec fn view(&self) -> AnchorModel {
        match self {
            Anchor::Expected { post_hash } => AnchorModel::Expected { post_hash: post_hash@ },
            Anchor::Observed { pre_hash } => AnchorModel::Observed { pre_hash: pre_hash@ },
        }
    }
}

/// How far a replay has come.
#[derive(Clone, Copy, Debug, PartialEq, Eq)]
pub enum ReplayState {
    /// Nothing was read yet.
    AwaitingInput { mode: Mode },
    /// The library decodes the proof (and, in native mode, the code proof).
    /// `expected` is the announced hash in native mode, nothing in ABI mode.
    Loading { expected: Option<[u8; 32]> },
    /// ABI mode: the library hashes the state before the step.
    HashingBefore,
    /// The library runs the one step.
    Running { anchor: Anchor },
    /// The library hashes the state after the step.
    HashingAfter { anchor: Anchor },
    /// The replay succeeded and `journal` was committed.
    Verified { journal: Journal },
    /// The replay failed and nothing was committed.
    Rejected { reason: ProofError },
}

/// What a [`ReplayState`] stands for.
pub enum StateModel {
    AwaitingInput { mode: Mode },
    Loading { expected: Option<Seq<u8>> },
    HashingBefore,
    Running { anchor: AnchorModel },
    HashingAfter { anchor: AnchorModel },
    Verified { journal: JournalModel },
    Rejected { reason: ProofError },
}

impl View for ReplayState {
    type V = StateModel;

    open spec fn view(&self) -> StateModel {
        match self {
            ReplayState::AwaitingInput { mode } => StateModel::AwaitingInput { mode: *mode },
            ReplayState::Loading { expected } => StateModel::Loading {
                expected: match expected {
                    Some(h) => Some(h@),
                    None => None,
                },
            },
            ReplayState::HashingBefore => StateModel::HashingBefore,
            ReplayState::Running { anchor } => StateModel::Running { anchor: anchor@ },
            ReplayState::HashingAfter { anchor } => StateModel::HashingAfter { anchor: anchor@ },
            ReplayState::Verified { journal } => StateModel::Verified { journal: journal@ },
            ReplayState::Rejected { reason } => StateModel::Rejected { reason: *reason },
        }
    }
}

/// What the caller reports.
#[derive(Debug, PartialEq, Eq)]
pub enum ReplayEvent {
    /// The input blocks were read.
    Input { blocks: Vec<Vec<u8>> },
    /// The library decoded the proofs.
    Loaded,
    /// The library could not decode a proof.
    LoadFailed,
    /// The library hashed the current state of the proof.
    Hashed { hash: [u8; 32] },
    /// The library ran the step.
    Ran,
    /// The library could not run the step against the code commitment.
    RunFailed,
}

/// What a [`ReplayEvent`] stands for.
pub enum EventModel {
    Input { blocks: Seq<Seq<u8>> },
    Loaded,
    LoadFailed,
    Hashed { hash: Seq<u8> },
    Ran,
    RunFailed,
}

impl View for ReplayEvent {
    type V = EventModel;

    open spec fn view(&self) -> EventModel {
        match self {
            ReplayEvent::Input { blocks } => EventModel::Input { blocks: block_models(blocks@) },
            ReplayEvent::Loaded => EventModel::Loaded,
            ReplayEvent::LoadFailed => EventModel::LoadFailed,
            ReplayEvent::Hashed { hash } => EventModel::Hashed { hash: hash@ },
            ReplayEvent::Ran => EventModel::Ran,
            ReplayEvent::RunFailed => EventModel::RunFailed,
        }
    }
}

/// What the caller is to do next.
#[derive(Debug, PartialEq, Eq)]
pub enum ReplayAction {
    /// Decode the one-step proof from `osp_proof` and take the code commitment
    /// from `code`.
    Load { osp_proof: Vec<u8>, code: CodeSource },
    /// Hash the current state of the proof.
    Hash,
    /// Run the one step against the code commitment.
    Run,
    /// Commit `journal` as the public output and stop.
    Commit { journal: Vec<u8> },
    /// Fail the run without any output.
    Abort { reason: ProofError },
}

/// What a [`ReplayAction`] stands for.
pub enum ActionModel {
    Load { osp_proof: Seq<u8>, code: CodeSourceModel },
    Hash,
    Run,
    Commit { journal: Seq<u8> },
    Abort { reason: ProofError },
}

impl View for ReplayAction {
    type V = ActionModel;

    open spec fn view(&self) -> ActionModel {
        match self {
            ReplayAction::Load { osp_proof, code } => ActionModel::Load {
                osp_proof: osp_proof@,
                code: code@,
            },
            ReplayAction::Hash => ActionModel::Hash,
            ReplayAction::Run => ActionModel::Run,
            ReplayAction::Commit { journal } => ActionModel::Commit { journal: journal@ },
            ReplayAction::Abort { reason } => ActionModel::Abort { reason: *reason },
        }
    }
}

/// The state and the action that end a replay in failure.
pub open spec fn rejected(reason: ProofError) -> (StateModel, ActionModel) {
    (StateModel::Rejected { reason }, ActionModel::Abort { reason })
}

/// The state and the action that end a replay in success.
pub open spec fn verified(journal: JournalModel) -> (StateModel, ActionModel) {
    (StateModel::Verified { journal }, ActionModel::Commit { journal: journal_bytes(journal) })
}

/// What follows the input: the proofs are loaded, or the input is rejected as
/// undecodable.
pub open spec fn open_input(mode: Mode, blocks: Seq<Seq<u8>>) -> (StateModel, ActionModel) {
    match envelope_parse(mode, blocks) {
        None => rejected(ProofError::Decode),
        Some(EnvelopeModel::Native { osp_proof, code_proof, expected_post_hash }) => (
            StateModel::Loading { expected: Some(expected_post_hash) },
            ActionModel::Load { osp_proof, code: CodeSourceModel::Encoded { bytes: code_proof } },
        ),
        Some(EnvelopeModel::Abi { inst_root, func_root, proof }) => (
            StateModel::Loading { expected: None },
            ActionModel::Load {
                osp_proof: proof,
                code: CodeSourceModel::Roots {
                    code_proof: CodeProofModel { inst_root, func_root },
                },
            },
        ),
    }
}

/// What follows the hash after the step. Native mode: success with that hash as
/// journal if it is the announced one, else a hash mismatch. ABI mode: success
/// with both hashes as journal.
pub open spec fn conclude(anchor: AnchorModel, hash: Seq<u8>) -> (StateModel, ActionModel) {
    match anchor {
        AnchorModel::Expected { post_hash } => {
            if hash == post_hash {
                verified(JournalModel::PostHash { post_hash: hash })
            } else {
                rejected(ProofError::HashMismatch)
            }
        },
        AnchorModel::Observed { pre_hash } => verified(
            JournalModel::Transition { pre_hash, post_hash: hash },
        ),
    }
}

/// The transition relation of the guest: the next state and the action to take,
/// or `None` where the event does not answer what the state waits for. The two
/// final states wait for nothing.
pub open spec fn replay_step(state: StateModel, event: EventModel) -> Option<
    (StateModel, ActionModel),
> {
    match (state, event) {
        (StateModel::AwaitingInput { mode }, EventModel::Input { blocks }) => Some(
            open_input(mode, blocks),
        ),
        (StateModel::Loading { expected: Some(post_hash) }, EventModel::Loaded) => Some(
            (
                StateModel::Running { anchor: AnchorModel::Expected { post_hash } },
                ActionModel::Run,
            ),
        ),
        (StateModel::Loading { expected: None }, EventModel::Loaded) => Some(
            (StateModel::HashingBefore, ActionModel::Hash),
        ),
        (StateModel::Loading { .. }, EventModel::LoadFailed) => Some(rejected(ProofError::Decode)),
        (StateModel::HashingBefore, EventModel::Hashed { hash }) => Some(
            (
                StateModel::Running { anchor: AnchorModel::Observed { pre_hash: hash } },
                ActionModel::Run,
            ),
        ),
        (StateModel::Running { anchor }, EventModel::Ran) => Some(
            (StateModel::HashingAfter { anchor }, ActionModel::Hash),
        ),
        (StateModel::Running { .. }, EventModel::RunFailed) => Some(rejected(ProofError::Replay)),
        (StateModel::HashingAfter { anchor }, EventModel::Hashed { hash }) => Some(
            conclude(anchor, hash),
        ),
        _ => None,
    }
}

/// The state in which a guest starts.
pub fn start(mode: Mode) -> (state: ReplayState)
    ensures
        state@ == (StateModel::AwaitingInput { mode }),
{
    ReplayState::AwaitingInput { mode }
}

fn reject(reason: ProofError) -> (r: (ReplayState, ReplayAction))
    ensures
        (r.0@, r.1@) == rejected(reason),
{
    (ReplayState::Rejected { reason }, ReplayAction::Abort { reason })
}

fn verify(journal: Journal) -> (r: (ReplayState, ReplayAction))
    ensures
        (r.0@, r.1@) == verified(journal@),
{
    let bytes = journal.to_bytes();
    (ReplayState::Verified { journal }, ReplayAction::Commit { journal: bytes })
}

/// Takes one step of the guest: from the state and the event that the caller
/// reports to the next state and the action that the caller is to perform.
pub fn step(state: ReplayState, event: ReplayEvent) -> (r: Option<(ReplayState, ReplayAction)>)
    ensures
        r is Some <==> replay_step(state@, event@) is Some,
        r matches Some((next, action)) ==> replay_step(state@, event@) == Some((next@, action@)),
{
    match (state, event) {
        (ReplayState::AwaitingInput { mode }, ReplayEvent::Input { blocks }) => {
            match ProofEnvelope::from_blocks(mode, blocks) {
                Err(_) => Some(reject(ProofError::Decode)),
                Ok(ProofEnvelope::Native { osp_proof, code_proof, expected_post_hash }) => Some(
                    (
                        ReplayState::Loading { expected: Some(expected_post_hash) },
                        ReplayAction::Load {
                            osp_proof,
                            code: CodeSource::Encoded { bytes: code_proof },
                        },
                    ),
                ),
                Ok(ProofEnvelope::Abi { inst_root, func_root, proof }) => Some(
                    (
                        ReplayState::Loading { expected: None },
                        ReplayAction::Load {
                            osp_proof: proof,
                            code: CodeSource::Roots {
                                code_proof: CodeProof { inst_root, func_root },
                            },
                        },
                    ),
                ),
            }
        },
        (ReplayState::Loading { expected: Some(post_hash) }, ReplayEvent::Loaded) => Some(
            (ReplayState::Running { anchor: Anchor::Expected { post_hash } }, ReplayAction::Run),
        ),
        (ReplayState::Loading { expected: None }, ReplayEvent::Loaded) => Some(
            (ReplayState::HashingBefore, ReplayAction::Hash),
        ),
        (ReplayState::Loading { .. }, ReplayEvent::LoadFailed) => Some(
            reject(ProofError::Decode),
        ),
        (ReplayState::HashingBefore, ReplayEvent::Hashed { hash }) => Some(
            (
                ReplayState::Running { anchor: Anchor::Observed { pre_hash: hash } },
                ReplayAction::Run,
            ),
        ),
        (ReplayState::Running { anchor }, ReplayEvent::Ran) => Some(
            (ReplayState::HashingAfter { anchor }, ReplayAction::Hash),
        ),
        (ReplayState::Running { .. }, ReplayEvent::RunFailed) => Some(reject(ProofError::Replay)),
        (
            ReplayState::HashingAfter { anchor: Anchor::Expected { post_hash } },
            ReplayEvent::Hashed { hash },
        ) => {
            if hash_eq(&hash, &post_hash) {
                Some(verify(Journal::PostHash { post_hash: hash }))
            } else {
                Some(reject(ProofError::HashMismatch))
            }
        },
        (
            ReplayState::HashingAfter { anchor: Anchor::Observed { pre_hash } },
            ReplayEvent::Hashed { hash },
        ) => Some(verify(Journal::Transition { pre_hash, post_hash: hash })),
        _ => None,
    }
}

/// A whole run: the state after `events`, taken in order from `state`, and the
/// actions that were asked for on the way. `None` where some event does not
/// answer what the state before it waits for.
pub open spec fn replay_run(state: StateModel, events: Seq<EventModel>) -> Option<
    (StateModel, Seq<ActionModel>),
>
    decreases events.len(),
{
    if events.len() == 0 {
        Some((state, Seq::empty()))
    } else {
        match replay_step(state, events.first()) {
            None => None,
            Some((next, action)) => match replay_run(next, events.drop_first()) {
                None => None,
                Some((last, actions)) => Some((last, seq![action] + actions)),
            },
        }
    }
}

/// `Verified` and `Rejected` are final: no event leads on from them.
pub proof fn lemma_final_states_are_terminal(state: StateModel, event: EventModel)
    requires
        state is Verified || state is Rejected,
    ensures
        replay_step(state, event) is None,
{
}

/// A journal is committed exactly when the replay is verified, and it is then
/// the journal of the state that was reached; a replay is rejected exactly when
/// the run is aborted, for the same reason.
pub proof fn lemma_commit_iff_verified(state: StateModel, event: EventModel)
    requires
        replay_step(state, event) is Some,
    ensures
        ({
            let (next, action) = replay_step(state, event)->0;
            &&& action is Commit <==> next is Verified
            &&& next matches StateModel::Verified { journal } ==> action == (ActionModel::Commit {
                journal: journal_bytes(journal),
            })
            &&& action is Abort <==> next is Rejected
            &&& next matches StateModel::Rejected { reason } ==> action == (ActionModel::Abort {
                reason,
            })
        }),
{
}

/// In a run, only the last action can be a commit, and it is one exactly when
/// the run ends in `Verified`. So a run that ends in `Rejected` commits nothing,
/// and no run commits twice.
pub proof fn lemma_run_commits_only_at_its_end(state: StateModel, events: Seq<EventModel>)
    requires
        replay_run(state, events) is Some,
        !(state is Verified),
    ensures
        ({
            let (last, actions) = replay_run(state, events)->0;
            &&& actions.len() == events.len()
            &&& forall|i: int|
                0 <= i < actions.len() && (#[trigger] actions[i]) is Commit ==> i == actions.len()
                    - 1 && last is Verified
            &&& last is Verified ==> actions.len() > 0 && actions.last() is Commit
        }),
    decreases events.len(),
{
    if events.len() > 0 {
        let (next, action) = replay_step(state, events.first())->0;
        let rest = events.drop_first();
        let (last, actions) = replay_run(next, rest)->0;
        lemma_commit_iff_verified(state, events.first());
        if next is Verified {
            if rest.len() > 0 {
                lemma_final_states_are_terminal(next, rest.first());
            }
            assert(rest.len() == 0);
        } else {
            lemma_run_commits_only_at_its_end(next, rest);
        }
        let all = seq![action] + actions;
        assert forall|i: int| 0 <= i < all.len() && (#[trigger] all[i]) is Commit implies i
            == all.len() - 1 && last is Verified by {
            if i > 0 {
                assert(all[i] == actions[i - 1]);
            }
        }
        if last is Verified && actions.len() > 0 {
            assert(all.last() == actions.last());
        }
    }
}

/// Native mode. The guest is given a proof, a code proof and the hash `expected`;
/// the library decodes both proofs, runs the step and reports the hash
/// `observed`. Then the guest has asked, in this order, to load, to run and to
/// hash, and it commits exactly `expected` if `observed` is that hash. If the
/// two differ the run is rejected as a hash mismatch and nothing is committed.
pub proof fn lemma_native_replay(
    osp_proof: Seq<u8>,
    code_proof: Seq<u8>,
    expected: Seq<u8>,
    observed: Seq<u8>,
)
    requires
        expected.len() == 32,
        observed.len() == 32,
    ensures
        replay_run(
            StateModel::AwaitingInput { mode: Mode::Native },
            seq![
                EventModel::Input { blocks: seq![osp_proof, code_proof, expected] },
                EventModel::Loaded,
                EventModel::Ran,
                EventModel::Hashed { hash: observed },
            ],
        ) == Some(
            (
                if observed == expected {
                    StateModel::Verified { journal: JournalModel::PostHash { post_hash: expected } }
                } else {
                    StateModel::Rejected { reason: ProofError::HashMismatch }
                },
                seq![
                    ActionModel::Load {
                        osp_proof,
                        code: CodeSourceModel::Encoded { bytes: code_proof },
                    },
                    ActionModel::Run,
                    ActionModel::Hash,
                    if observed == expected {
                        ActionModel::Commit { journal: expected }
                    } else {
                        ActionModel::Abort { reason: ProofError::HashMismatch }
                    },
                ],
            ),
        ),
{
    let e0 = EventModel::Input { blocks: seq![osp_proof, code_proof, expected] };
    let e3 = EventModel::Hashed { hash: observed };
    let events = seq![e0, EventModel::Loaded, EventModel::Ran, e3];
    let rest1 = seq![EventModel::Loaded, EventModel::Ran, e3];
    let rest2 = seq![EventModel::Ran, e3];
    let rest3 = seq![e3];
    assert(events.drop_first() =~= rest1);
    assert(rest1.drop_first() =~= rest2);
    assert(rest2.drop_first() =~= rest3);
    assert(rest3.drop_first() =~= Seq::<EventModel>::empty());
    let s0 = StateModel::AwaitingInput { mode: Mode::Native };
    let s1 = StateModel::Loading { expected: Some(expected) };
    let s2 = StateModel::Running { anchor: AnchorModel::Expected { post_hash: expected } };
    let s3 = StateModel::HashingAfter { anchor: AnchorModel::Expected { post_hash: expected } };
    let a0 = ActionModel::Load { osp_proof, code: CodeSourceModel::Encoded { bytes: code_proof } };
    assert(replay_step(s0, e0) == Some((s1, a0)));
    assert(replay_step(s1, EventModel::Loaded) == Some((s2, ActionModel::Run)));
    assert(replay_step(s2, EventModel::Ran) == Some((s3, ActionModel::Hash)));
    let (s4, a3) = conclude(AnchorModel::Expected { post_hash: expected }, observed);
    assert(replay_step(s3, e3) == Some((s4, a3)));
    assert(replay_run(s4, Seq::<EventModel>::empty()) == Some((s4, Seq::<ActionModel>::empty())));
    assert(replay_run(s3, rest3) == Some((s4, seq![a3] + Seq::<ActionModel>::empty())));
    assert(replay_run(s2, rest2) == Some((s4, seq![ActionModel::Hash] + seq![a3])));
    assert(replay_run(s1, rest1) == Some((s4, seq![ActionModel::Run] + seq![ActionModel::Hash, a3])));
    assert(replay_run(s0, events) == Some(
        (s4, seq![a0] + seq![ActionModel::Run, ActionModel::Hash, a3]),
    ));
    assert(seq![a0] + seq![ActionModel::Run, ActionModel::Hash, a3] =~= seq![
        a0,
        ActionModel::Run,
        ActionModel::Hash,
        a3,
    ]);
}

/// ABI mode. The guest is given an encoded submission; the library decodes the
/// proof, reports the hash `pre_hash`, runs the step and reports the hash
/// `post_hash`. Then the guest has taken the code commitment from the two roots
/// of the submission, has asked for the first hash before the step and for the
/// second after it, and commits the ABI tuple of the two hashes in that order.
pub proof fn lemma_abi_replay(
    inst_root: Seq<u8>,
    func_root: Seq<u8>,
    proof: Seq<u8>,
    pre_hash: Seq<u8>,
    post_hash: Seq<u8>,
)
    requires
        inst_root.len() == 32,
        func_root.len() == 32,
        proof.len() <= MAX_PROOF_BYTES,
        pre_hash.len() == 32,
        post_hash.len() == 32,
    ensures
        replay_run(
            StateModel::AwaitingInput { mode: Mode::Abi },
            seq![
                EventModel::Input { blocks: seq![submission_wire(inst_root, func_root, proof)] },
                EventModel::Loaded,
                EventModel::Hashed { hash: pre_hash },
                EventModel::Ran,
                EventModel::Hashed { hash: post_hash },
            ],
        ) == Some(
            (
                StateModel::Verified { journal: JournalModel::Transition { pre_hash, post_hash } },
                seq![
                    ActionModel::Load {
                        osp_proof: proof,
                        code: CodeSourceModel::Roots {
                            code_proof: CodeProofModel { inst_root, func_root },
                        },
                    },
                    ActionModel::Hash,
                    ActionModel::Run,
                    ActionModel::Hash,
                    ActionModel::Commit { journal: journal_wire(pre_hash, post_hash) },
                ],
            ),
        ),
{
    let e0 = EventModel::Input { blocks: seq![submission_wire(inst_root, func_root, proof)] };
    let e2 = EventModel::Hashed { hash: pre_hash };
    let e4 = EventModel::Hashed { hash: post_hash };
    let events = seq![e0, EventModel::Loaded, e2, EventModel::Ran, e4];
    let rest1 = seq![EventModel::Loaded, e2, EventModel::Ran, e4];
    let rest2 = seq![e2, EventModel::Ran, e4];
    let rest3 = seq![EventModel::Ran, e4];
    let rest4 = seq![e4];
    assert(events.drop_first() =~= rest1);
    assert(rest1.drop_first() =~= rest2);
    assert(rest2.drop_first() =~= rest3);
    assert(rest3.drop_first() =~= rest4);
    assert(rest4.drop_first() =~= Seq::<EventModel>::empty());
    lemma_submission_round_trip(inst_root, func_root, proof);
    let s0 = StateModel::AwaitingInput { mode: Mode::Abi };
    let s1 = StateModel::Loading { expected: None };
    let s2 = StateModel::HashingBefore;
    let s3 = StateModel::Running { anchor: AnchorModel::Observed { pre_hash } };
    let s4 = StateModel::HashingAfter { anchor: AnchorModel::Observed { pre_hash } };
    let s5 = StateModel::Verified { journal: JournalModel::Transition { pre_hash, post_hash } };
    let a0 = ActionModel::Load {
        osp_proof: proof,
        code: CodeSourceModel::Roots { code_proof: CodeProofModel { inst_root, func_root } },
    };
    let a4 = ActionModel::Commit { journal: journal_wire(pre_hash, post_hash) };
    assert(replay_step(s0, e0) == Some((s1, a0)));
    assert(replay_step(s1, EventModel::Loaded) == Some((s2, ActionModel::Hash)));
    assert(replay_step(s2, e2) == Some((s3, ActionModel::Run)));
    assert(replay_step(s3, EventModel::Ran) == Some((s4, ActionModel::Hash)));
    assert(replay_step(s4, e4) == Some((s5, a4)));
    assert(replay_run(s5, Seq::<EventModel>::empty()) == Some((s5, Seq::<ActionModel>::empty())));
    assert(replay_run(s4, rest4) == Some((s5, seq![a4] + Seq::<ActionModel>::empty())));
    assert(replay_run(s3, rest3) == Some((s5, seq![ActionModel::Hash] + seq![a4])));
    assert(replay_run(s2, rest2) == Some((s5, seq![ActionModel::Run] + seq![ActionModel::Hash, a4])));
    assert(replay_run(s1, rest1) == Some(
        (s5, seq![ActionModel::Hash] + seq![ActionModel::Run, ActionModel::Hash, a4]),
    ));
    assert(replay_run(s0, events) == Some(
        (s5, seq![a0] + seq![ActionModel::Hash, ActionModel::Run, ActionModel::Hash, a4]),
    ));
    assert(seq![a0] + seq![ActionModel::Hash, ActionModel::Run, ActionModel::Hash, a4] =~= seq![
        a0,
        ActionModel::Hash,
        ActionModel::Run,
        ActionModel::Hash,
        a4,
    ]);
}

/// A proof that the library cannot decode, or a step that it cannot run against
/// the code commitment, ends the run at once: rejected, and nothing committed.
pub proof fn lemma_failure_is_rejected(expected: Option<Seq<u8>>, anchor: AnchorModel)
    ensures
        replay_step(StateModel::Loading { expected }, EventModel::LoadFailed) == Some(
            rejected(ProofError::Decode),
        ),
        replay_step(StateModel::Running { anchor }, EventModel::RunFailed) == Some(
            rejected(ProofError::Replay),
        ),
{
}

} // verus!
