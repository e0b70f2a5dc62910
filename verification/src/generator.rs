//! The host: how a one-step proof is generated, one step at a time.
//!
//! Loading a module, calling into it under a step budget and building proofs is
//! the execution library's work. This file decides what is asked of the library
//! and in what order, and what follows from each answer. The caller performs the
//! action that [`step`] returns and comes back with the event that reports how
//! it went.

use crate::error::ProofError;
use crate::model::{Checkpoint, CodeProof, CodeProofModel, GeneratedModel, GeneratedProof};
use vstd::prelude::*;

verus! {

/// How far the generation has come.
#[derive(Debug, PartialEq, Eq)]
pub enum GeneratorState {
    /// The library loads and instantiates the module and commits to its code.
    Instantiating { budget: u64 },
    /// The library calls the entry point under the step budget.
    Calling { code_proof: CodeProof, code_proof_bytes: Vec<u8> },
    /// The run stopped at `checkpoint`; the library builds the proof there.
    Extracting { code_proof: CodeProof, code_proof_bytes: Vec<u8>, checkpoint: Checkpoint },
    /// The library runs the step on a copy of the proof and hashes the state
    /// before and after it.
    Checking {
        code_proof: CodeProof,
        code_proof_bytes: Vec<u8>,
        checkpoint: Checkpoint,
        osp_proof_bytes: Vec<u8>,
    },
    /// The proof is complete.
    Generated { proof: GeneratedProof },
    /// The attempt was given up; nothing is submitted.
    Failed { reason: ProofError },
}

/// What a [`GeneratorState`] stands for.
pub enum GeneratorModel {
    Instantiating { budget: u64 },
    Calling { code_proof: CodeProofModel, code_proof_bytes: Seq<u8> },
    Extracting { code_proof: CodeProofModel, code_proof_bytes: Seq<u8>, checkpoint: Checkpoint },
    Checking {
        code_proof: CodeProofModel,
        code_proof_bytes: Seq<u8>,
        checkpoint: Checkpoint,
        osp_proof_bytes: Seq<u8>,
    },
    Generated { proof: GeneratedModel },
    Failed { reason: ProofError },
}

impl View for GeneratorState {
    type V = GeneratorModel;

    open spec fn view(&self) -> GeneratorModel {
        match self {
            GeneratorState::Instantiating { budget } => GeneratorModel::Instantiating {
                budget: *budget,
            },
            GeneratorState::Calling { code_proof, code_proof_bytes } => GeneratorModel::Calling {
                code_proof: code_proof@,
                code_proof_bytes: code_proof_bytes@,
            },
            GeneratorState::Extracting { code_proof, code_proof_bytes, checkpoint } => {
                GeneratorModel::Extracting {
                    code_proof: code_proof@,
                    code_proof_bytes: code_proof_bytes@,
                    checkpoint: *checkpoint,
                }
            },
            GeneratorState::Checking {
                code_proof,
                code_proof_bytes,
                checkpoint,
                osp_proof_bytes,
            } => GeneratorModel::Checking {
                code_proof: code_proof@,
                code_proof_bytes: code_proof_bytes@,
                checkpoint: *checkpoint,
                osp_proof_bytes: osp_proof_bytes@,
            },
            GeneratorState::Generated { proof } => GeneratorModel::Generated { proof: proof@ },
            GeneratorState::Failed { reason } => GeneratorModel::Failed { reason: *reason },
        }
    }
}

/// What the caller reports.
#[derive(Debug, PartialEq, Eq)]
pub enum GeneratorEvent {
    /// The module was instantiated; this is its code commitment, as roots and as
    /// the library serialises it.
    Instantiated { code_proof: CodeProof, code_proof_bytes: Vec<u8> },
    /// The module code is malformed.
    ModuleRejected,
    /// The module exports no function under the entry name.
    ExportMissing,
    /// The call failed: the library reported an error in place of a result.
    CallFailed,
    /// The call returned before the step budget was used up.
    Completed,
    /// The step budget was used up at program counter `pc`.
    Exhausted { pc: u64 },
    /// The library built the one-step proof; these are its bytes.
    Extracted { osp_proof_bytes: Vec<u8> },
    /// The library could not build a proof at the checkpoint.
    ExtractionFailed,
    /// The step ran on a copy of the proof; these are the state hashes before
    /// and after it.
    Checked { pre_hash: [u8; 32], post_hash: [u8; 32] },
    /// The step could not be run against the code commitment.
    RunFailed,
}

/// What a [`GeneratorEvent`] stands for.
pub enum GeneratorEventModel {
    Instantiated { code_proof: CodeProofModel, code_proof_bytes: Seq<u8> },
    ModuleRejected,
    ExportMissing,
    CallFailed,
    Completed,
    Exhausted { pc: u64 },
    Extracted { osp_proof_bytes: Seq<u8> },
    ExtractionFailed,
    Checked { pre_hash: Seq<u8>, post_hash: Seq<u8> },
    RunFailed,
}

impl View for GeneratorEvent {
    type V = GeneratorEventModel;

    open spec fn view(&self) -> GeneratorEventModel {
        match self {
            GeneratorEvent::Instantiated { code_proof, code_proof_bytes } => {
                GeneratorEventModel::Instantiated {
                    code_proof: code_proof@,
                    code_proof_bytes: code_proof_bytes@,
                }
            },
            GeneratorEvent::ModuleRejected => GeneratorEventModel::ModuleRejected,
            GeneratorEvent::ExportMissing => GeneratorEventModel::ExportMissing,
            GeneratorEvent::CallFailed => GeneratorEventModel::CallFailed,
            GeneratorEvent::Completed => GeneratorEventModel::Completed,
            GeneratorEvent::Exhausted { pc } => GeneratorEventModel::Exhausted { pc: *pc },
            GeneratorEvent::Extracted { osp_proof_bytes } => GeneratorEventModel::Extracted {
                osp_proof_bytes: osp_proof_bytes@,
            },
            GeneratorEvent::ExtractionFailed => GeneratorEventModel::ExtractionFailed,
            GeneratorEvent::Checked { pre_hash, post_hash } => GeneratorEventModel::Checked {
                pre_hash: pre_hash@,
                post_hash: post_hash@,
            },
            GeneratorEvent::RunFailed => GeneratorEventModel::RunFailed,
        }
    }
}

/// What the caller is to do next.
#[derive(Clone, Copy, Debug, PartialEq, Eq, Structural)]
pub enum GeneratorAction {
    /// Load and instantiate the module and commit to its code.
    Instantiate,
    /// Call the entry point; stop after `budget` instructions.
    Call { budget: u64 },
    /// Build the one-step proof at `checkpoint`.
    Extract { checkpoint: Checkpoint },
    /// Run the step on a copy of the proof; hash the state before and after.
    Check,
    /// Hand the generated proof to the environment builder.
    Submit,
    /// Give the attempt up.
    Abort { reason: ProofError },
}

/// The state and the action that end a generation in failure.
pub open spec fn failed(reason: ProofError) -> (GeneratorModel, GeneratorAction) {
    (GeneratorModel::Failed { reason }, GeneratorAction::Abort { reason })
}

/// The transition relation of the host: the next state and the action to take,
/// or `None` where the event does not answer what the state waits for. A call
/// that fails, or that returns before the budget is used up, leaves no state to
/// prove a step from; that is a failure to extract a proof. The two final states
/// wait for nothing.
pub open spec fn generator_step(state: GeneratorModel, event: GeneratorEventModel) -> Option<
    (GeneratorModel, GeneratorAction),
> {
    match (state, event) {
        (
            GeneratorModel::Instantiating { budget },
            GeneratorEventModel::Instantiated { code_proof, code_proof_bytes },
        ) => Some(
            (
                GeneratorModel::Calling { code_proof, code_proof_bytes },
                GeneratorAction::Call { budget },
            ),
        ),
        (GeneratorModel::Instantiating { .. }, GeneratorEventModel::ModuleRejected) => Some(
            failed(ProofError::ModuleLoad),
        ),
        (GeneratorModel::Calling { .. }, GeneratorEventModel::ExportMissing) => Some(
            failed(ProofError::MissingExport),
        ),
        (GeneratorModel::Calling { .. }, GeneratorEventModel::CallFailed) => Some(
            failed(ProofError::ProofExtraction),
        ),
        (GeneratorModel::Calling { .. }, GeneratorEventModel::Completed) => Some(
            failed(ProofError::ProofExtraction),
        ),
        (
            GeneratorModel::Calling { code_proof, code_proof_bytes },
            GeneratorEventModel::Exhausted { pc },
        ) => Some(
            (
                GeneratorModel::Extracting {
                    code_proof,
                    code_proof_bytes,
                    checkpoint: Checkpoint { pc },
                },
                GeneratorAction::Extract { checkpoint: Checkpoint { pc } },
            ),
        ),
        (
            GeneratorModel::Extracting { code_proof, code_proof_bytes, checkpoint },
            GeneratorEventModel::Extracted { osp_proof_bytes },
        ) => Some(
            (
                GeneratorModel::Checking {
                    code_proof,
                    code_proof_bytes,
                    checkpoint,
                    osp_proof_bytes,
                },
                GeneratorAction::Check,
            ),
        ),
        (GeneratorModel::Extracting { .. }, GeneratorEventModel::ExtractionFailed) => Some(
            failed(ProofError::ProofExtraction),
        ),
        (
            GeneratorModel::Checking { code_proof, code_proof_bytes, checkpoint, osp_proof_bytes },
            GeneratorEventModel::Checked { pre_hash, post_hash },
        ) => Some(
            (
                GeneratorModel::Generated {
                    proof: GeneratedModel {
                        code_proof,
                        code_proof_bytes,
                        osp_proof_bytes,
                        checkpoint,
                        pre_hash,
                        post_hash,
                    },
                },
                GeneratorAction::Submit,
            ),
        ),
        (GeneratorModel::Checking { .. }, GeneratorEventModel::RunFailed) => Some(
            failed(ProofError::Replay),
        ),
        _ => None,
    }
}

/// Starts a generation with a step budget of `budget` instructions.
pub fn start(budget: u64) -> (r: (GeneratorState, GeneratorAction))
    requires
        budget > 0,
    ensures
        r.0@ == (GeneratorModel::Instantiating { budget }),
        r.1 == GeneratorAction::Instantiate,
{
    (GeneratorState::Instantiating { budget }, GeneratorAction::Instantiate)
}

fn fail(reason: ProofError) -> (r: (GeneratorState, GeneratorAction))
    ensures
        (r.0@, r.1) == failed(reason),
{
    (GeneratorState::Failed { reason }, GeneratorAction::Abort { reason })
}

/// Takes one step of the host: from the state and the event that the caller
/// reports to the next state and the action that the caller is to perform.
pub fn step(state: GeneratorState, event: GeneratorEvent) -> (r: Option<
    (GeneratorState, GeneratorAction),
>)
    ensures
        r is Some <==> generator_step(state@, event@) is Some,
        r matches Some((next, action)) ==> generator_step(state@, event@) == Some((next@, action)),
{
    match (state, event) {
        (
            GeneratorState::Instantiating { budget },
            GeneratorEvent::Instantiated { code_proof, code_proof_bytes },
        ) => Some(
            (
                GeneratorState::Calling { code_proof, code_proof_bytes },
                GeneratorAction::Call { budget },
            ),
        ),
        (GeneratorState::Instantiating { .. }, GeneratorEvent::ModuleRejected) => Some(
            fail(ProofError::ModuleLoad),
        ),
        (GeneratorState::Calling { .. }, GeneratorEvent::ExportMissing) => Some(
            fail(ProofError::MissingExport),
        ),
        (GeneratorState::Calling { .. }, GeneratorEvent::CallFailed) => Some(
            fail(ProofError::ProofExtraction),
        ),
        (GeneratorState::Calling { .. }, GeneratorEvent::Completed) => Some(
            fail(ProofError::ProofExtraction),
        ),
        (
            GeneratorState::Calling { code_proof, code_proof_bytes },
            GeneratorEvent::Exhausted { pc },
        ) => {
            let checkpoint = Checkpoint { pc };
            Some(
                (
                    GeneratorState::Extracting { code_proof, code_proof_bytes, checkpoint },
                    GeneratorAction::Extract { checkpoint },
                ),
            )
        },
        (
            GeneratorState::Extracting { code_proof, code_proof_bytes, checkpoint },
            GeneratorEvent::Extracted { osp_proof_bytes },
        ) => Some(
            (
                GeneratorState::Checking {
                    code_proof,
                    code_proof_bytes,
                    checkpoint,
                    osp_proof_bytes,
                },
                GeneratorAction::Check,
            ),
        ),
        (GeneratorState::Extracting { .. }, GeneratorEvent::ExtractionFailed) => Some(
            fail(ProofError::ProofExtraction),
        ),
        (
            GeneratorState::Checking { code_proof, code_proof_bytes, checkpoint, osp_proof_bytes },
            GeneratorEvent::Checked { pre_hash, post_hash },
        ) => Some(
            (
                GeneratorState::Generated {
                    proof: GeneratedProof {
                        code_proof,
                        code_proof_bytes,
                        osp_proof_bytes,
                        checkpoint,
                        pre_hash,
                        post_hash,
                    },
                },
                GeneratorAction::Submit,
            ),
        ),
        (GeneratorState::Checking { .. }, GeneratorEvent::RunFailed) => Some(
            fail(ProofError::Replay),
        ),
        _ => None,
    }
}

/// A whole generation: the state after `events`, taken in order from `state`,
/// and the actions that were asked for on the way. `None` where some event does
/// not answer what the state before it waits for.
pub open spec fn generator_run(state: GeneratorModel, events: Seq<GeneratorEventModel>) -> Option<
    (GeneratorModel, Seq<GeneratorAction>),
>
    decreases events.len(),
{
    if events.len() == 0 {
        Some((state, Seq::empty()))
    } else {
        match generator_step(state, events.first()) {
            None => None,
            Some((next, action)) => match generator_run(next, events.drop_first()) {
                None => None,
                Some((last, actions)) => Some((last, seq![action] + actions)),
            },
        }
    }
}

/// `Generated` and `Failed` are final: no event leads on from them.
pub proof fn lemma_generator_final_states_are_terminal(
    state: GeneratorModel,
    event: GeneratorEventModel,
)
    requires
        state is Generated || state is Failed,
    ensures
        generator_step(state, event) is None,
{
}

/// A proof is handed on exactly when the generation has reached `Generated`; a
/// generation has failed exactly when the attempt is aborted, for the same
/// reason.
pub proof fn lemma_submit_iff_generated(state: GeneratorModel, event: GeneratorEventModel)
    requires
        generator_step(state, event) is Some,
    ensures
        ({
            let (next, action) = generator_step(state, event)->0;
            &&& action is Submit <==> next is Generated
            &&& action is Abort <==> next is Failed
            &&& next matches GeneratorModel::Failed { reason } ==> action == (
            GeneratorAction::Abort { reason })
        }),
{
}

/// In a generation, only the last action can hand a proof on, and it does so
/// exactly when the generation ends in `Generated`. So a generation that fails
/// submits nothing, not even a part.
pub proof fn lemma_generation_submits_only_at_its_end(
    state: GeneratorModel,
    events: Seq<GeneratorEventModel>,
)
    requires
        generator_run(state, events) is Some,
        !(state is Generated),
    ensures
        ({
            let (last, actions) = generator_run(state, events)->0;
            &&& actions.len() == events.len()
            &&& forall|i: int|
                0 <= i < actions.len() && (#[trigger] actions[i]) is Submit ==> i == actions.len()
                    - 1 && last is Generated
            &&& last is Generated ==> actions.len() > 0 && actions.last() is Submit
        }),
    decreases events.len(),
{
    if events.len() > 0 {
        let (next, action) = generator_step(state, events.first())->0;
        let rest = events.drop_first();
        let (last, actions) = generator_run(next, rest)->0;
        lemma_submit_iff_generated(state, events.first());
        if next is Generated {
            if rest.len() > 0 {
                lemma_generator_final_states_are_terminal(next, rest.first());
            }
            assert(rest.len() == 0);
        } else {
            lemma_generation_submits_only_at_its_end(next, rest);
        }
        let all = seq![action] + actions;
        assert forall|i: int| 0 <= i < all.len() && (#[trigger] all[i]) is Submit implies i
            == all.len() - 1 && last is Generated by {
            if i > 0 {
                assert(all[i] == actions[i - 1]);
            }
        }
        if last is Generated && actions.len() > 0 {
            assert(all.last() == actions.last());
        }
    }
}

/// A generation in which nothing fails: the module is instantiated, the call
/// uses up its budget at `pc`, a proof is built there and the step runs on a
/// copy of it. The library was then asked, in this order, to call under the
/// budget, to build the proof at `pc` and to check it, and the generated proof
/// holds exactly what the library reported, anchored at `pc`.
pub proof fn lemma_generation(
    budget: u64,
    code_proof: CodeProofModel,
    code_proof_bytes: Seq<u8>,
    pc: u64,
    osp_proof_bytes: Seq<u8>,
    pre_hash: Seq<u8>,
    post_hash: Seq<u8>,
)
    ensures
        generator_run(
            GeneratorModel::Instantiating { budget },
            seq![
                GeneratorEventModel::Instantiated { code_proof, code_proof_bytes },
                GeneratorEventModel::Exhausted { pc },
                GeneratorEventModel::Extracted { osp_proof_bytes },
                GeneratorEventModel::Checked { pre_hash, post_hash },
            ],
        ) == Some(
            (
                GeneratorModel::Generated {
                    proof: GeneratedModel {
                        code_proof,
                        code_proof_bytes,
                        osp_proof_bytes,
                        checkpoint: Checkpoint { pc },
                        pre_hash,
                        post_hash,
                    },
                },
                seq![
                    GeneratorAction::Call { budget },
                    GeneratorAction::Extract { checkpoint: Checkpoint { pc } },
                    GeneratorAction::Check,
                    GeneratorAction::Submit,
                ],
            ),
        ),
{
    let e0 = GeneratorEventModel::Instantiated { code_proof, code_proof_bytes };
    let e1 = GeneratorEventModel::Exhausted { pc };
    let e2 = GeneratorEventModel::Extracted { osp_proof_bytes };
    let e3 = GeneratorEventModel::Checked { pre_hash, post_hash };
    let events = seq![e0, e1, e2, e3];
    let rest1 = seq![e1, e2, e3];
    let rest2 = seq![e2, e3];
    let rest3 = seq![e3];
    assert(events.drop_first() =~= rest1);
    assert(rest1.drop_first() =~= rest2);
    assert(rest2.drop_first() =~= rest3);
    assert(rest3.drop_first() =~= Seq::<GeneratorEventModel>::empty());
    let checkpoint = Checkpoint { pc };
    let s0 = GeneratorModel::Instantiating { budget };
    let s1 = GeneratorModel::Calling { code_proof, code_proof_bytes };
    let s2 = GeneratorModel::Extracting { code_proof, code_proof_bytes, checkpoint };
    let s3 = GeneratorModel::Checking { code_proof, code_proof_bytes, checkpoint, osp_proof_bytes };
    let s4 = GeneratorModel::Generated {
        proof: GeneratedModel {
            code_proof,
            code_proof_bytes,
            osp_proof_bytes,
            checkpoint,
            pre_hash,
            post_hash,
        },
    };
    let a0 = GeneratorAction::Call { budget };
    let a1 = GeneratorAction::Extract { checkpoint };
    let a2 = GeneratorAction::Check;
    let a3 = GeneratorAction::Submit;
    assert(generator_step(s0, e0) == Some((s1, a0)));
    assert(generator_step(s1, e1) == Some((s2, a1)));
    assert(generator_step(s2, e2) == Some((s3, a2)));
    assert(generator_step(s3, e3) == Some((s4, a3)));
    assert(generator_run(s4, Seq::<GeneratorEventModel>::empty()) == Some(
        (s4, Seq::<GeneratorAction>::empty()),
    ));
    assert(generator_run(s3, rest3) == Some((s4, seq![a3] + Seq::<GeneratorAction>::empty())));
    assert(generator_run(s2, rest2) == Some((s4, seq![a2] + seq![a3])));
    assert(generator_run(s1, rest1) == Some((s4, seq![a1] + seq![a2, a3])));
    assert(generator_run(s0, events) == Some((s4, seq![a0] + seq![a1, a2, a3])));
    assert(seq![a0] + seq![a1, a2, a3] =~= seq![a0, a1, a2, a3]);
}

/// A call that fails or that returns before its budget is used up ends the
/// generation: no checkpoint, no proof, nothing submitted.
pub proof fn lemma_natural_completion_fails(code_proof: CodeProofModel, code_proof_bytes: Seq<u8>)
    ensures
        generator_step(
            GeneratorModel::Calling { code_proof, code_proof_bytes },
            GeneratorEventModel::Completed,
        ) == Some(failed(ProofError::ProofExtraction)),
        generator_step(
            GeneratorModel::Calling { code_proof, code_proof_bytes },
            GeneratorEventModel::CallFailed,
        ) == Some(failed(ProofError::ProofExtraction)),
{
}

/// A proof whose step the host cannot run against the module's own code
/// commitment is never handed on: the generation fails as a replay does.
pub proof fn lemma_failed_check_fails(
    code_proof: CodeProofModel,
    code_proof_bytes: Seq<u8>,
    checkpoint: Checkpoint,
    osp_proof_bytes: Seq<u8>,
)
    ensures
        generator_step(
            GeneratorModel::Checking { code_proof, code_proof_bytes, checkpoint, osp_proof_bytes },
            GeneratorEventModel::RunFailed,
        ) == Some(failed(ProofError::Replay)),
{
}

/// What a generation ends in depends on nothing but the budget and what the
/// library reported: two generations that are told the same end in the same
/// state, and where that state is `Generated`, in proofs with the same roots,
/// the same bytes and the same checkpoint. Whether the library reports the same
/// for the same module, entry point and argument is its own matter.
pub proof fn lemma_equal_reports_equal_proofs(
    budget: u64,
    first: Seq<GeneratorEventModel>,
    second: Seq<GeneratorEventModel>,
)
    requires
        first == second,
    ensures
        generator_run(GeneratorModel::Instantiating { budget }, first) == generator_run(
            GeneratorModel::Instantiating { budget },
            second,
        ),
{
}

} // verus!
