//! The values that pass between the proof generator, the environment builder and
//! the replay verifier.

use crate::codec::{proof_encodable, MAX_PROOF_BYTES};
use vstd::prelude::*;

verus! {

/// The commitment to a module's code: the Merkle roots of its instruction stream
/// and of its function table. Fixed once the module is instantiated.
#[derive(Clone, Copy, Debug, PartialEq, Eq)]
pub struct CodeProof {
    pub inst_root: [u8; 32],
    pub func_root: [u8; 32],
}

/// What a [`CodeProof`] stands for.
pub struct CodeProofModel {
    pub inst_root: Seq<u8>,
    pub func_root: Seq<u8>,
}

impl View for CodeProof {
    type V = CodeProofModel;

    open spec fn view(&self) -> CodeProofModel {
        CodeProofModel { inst_root: self.inst_root@, func_root: self.func_root@ }
    }
}

/// The program counter at which a run stopped because its step budget was used
/// up. The one-step proof is taken there.
#[derive(Clone, Copy, Debug, PartialEq, Eq, Structural)]
pub struct Checkpoint {
    pub pc: u64,
}

/// The two wire encodings of a proof.
#[derive(Clone, Copy, Debug, PartialEq, Eq, Structural)]
pub enum Mode {
    /// Three blocks: the proof, the code proof, the expected hash after the step.
    Native,
    /// One block: the ABI tuple `(instRoot, funcRoot, proof)`.
    Abi,
}

/// What the host hands to the guest.
#[derive(Debug, PartialEq, Eq)]
pub enum ProofEnvelope {
    Native { osp_proof: Vec<u8>, code_proof: Vec<u8>, expected_post_hash: [u8; 32] },
    Abi { inst_root: [u8; 32], func_root: [u8; 32], proof: Vec<u8> },
}

/// What a [`ProofEnvelope`] stands for.
pub enum EnvelopeModel {
    Native { osp_proof: Seq<u8>, code_proof: Seq<u8>, expected_post_hash: Seq<u8> },
    Abi { inst_root: Seq<u8>, func_root: Seq<u8>, proof: Seq<u8> },
}

impl View for ProofEnvelope {
    type V = EnvelopeModel;

    open spec fn view(&self) -> EnvelopeModel {
        match self {
            ProofEnvelope::Native { osp_proof, code_proof, expected_post_hash } => {
                EnvelopeModel::Native {
                    osp_proof: osp_proof@,
                    code_proof: code_proof@,
                    expected_post_hash: expected_post_hash@,
                }
            },
            ProofEnvelope::Abi { inst_root, func_root, proof } => EnvelopeModel::Abi {
                inst_root: inst_root@,
                func_root: func_root@,
                proof: proof@,
            },
        }
    }
}

impl EnvelopeModel {
    /// The encoding that the envelope belongs to.
    pub open spec fn mode(self) -> Mode {
        match self {
            EnvelopeModel::Native { .. } => Mode::Native,
            EnvelopeModel::Abi { .. } => Mode::Abi,
        }
    }

    /// An ABI proof can be encoded on this machine. This implies [`Self::wf`] for
    /// the model of a [`ProofEnvelope`].
    pub open spec fn encodable(self) -> bool {
        self matches EnvelopeModel::Abi { proof, .. } ==> proof_encodable(proof.len())
    }

    /// Every hash and root is 32 bytes wide, and an ABI proof is short enough
    /// for the wire format. Holds of the model of every [`ProofEnvelope`] whose
    /// ABI proof is at most [`MAX_PROOF_BYTES`] long.
    pub open spec fn wf(self) -> bool {
        match self {
            EnvelopeModel::Native { expected_post_hash, .. } => expected_post_hash.len() == 32,
            EnvelopeModel::Abi { inst_root, func_root, proof } => {
                &&& inst_root.len() == 32
                &&& func_root.len() == 32
                &&& proof.len() <= MAX_PROOF_BYTES
            },
        }
    }
}

impl ProofEnvelope {
    /// The encoding that the envelope belongs to.
    pub fn mode(&self) -> (m: Mode)
        ensures
            m == self@.mode(),
    {
        match self {
            ProofEnvelope::Native { .. } => Mode::Native,
            ProofEnvelope::Abi { .. } => Mode::Abi,
        }
    }
}

/// What the guest commits when a replay succeeds.
#[derive(Clone, Copy, Debug, PartialEq, Eq)]
pub enum Journal {
    /// Native mode: the hash after the step.
    PostHash { post_hash: [u8; 32] },
    /// ABI mode: the hashes before and after the step.
    Transition { pre_hash: [u8; 32], post_hash: [u8; 32] },
}

/// What a [`Journal`] stands for.
pub enum JournalModel {
    PostHash { post_hash: Seq<u8> },
    Transition { pre_hash: Seq<u8>, post_hash: Seq<u8> },
}

impl View for Journal {
    type V = JournalModel;

    open spec fn view(&self) -> JournalModel {
        match self {
            Journal::PostHash { post_hash } => JournalModel::PostHash { post_hash: post_hash@ },
            Journal::Transition { pre_hash, post_hash } => JournalModel::Transition {
                pre_hash: pre_hash@,
                post_hash: post_hash@,
            },
        }
    }
}

/// What the proof generator produces for one attempt: the code commitment, both
/// proofs as the execution library serialises them, the checkpoint the one-step
/// proof is anchored at, and the state hashes before and after that step as the
/// host computed them on a copy of the proof.
#[derive(Debug, PartialEq, Eq)]
pub struct GeneratedProof {
    pub code_proof: CodeProof,
    pub code_proof_bytes: Vec<u8>,
    pub osp_proof_bytes: Vec<u8>,
    pub checkpoint: Checkpoint,
    pub pre_hash: [u8; 32],
    pub post_hash: [u8; 32],
}

/// What a [`GeneratedProof`] stands for.
pub struct GeneratedModel {
    pub code_proof: CodeProofModel,
    pub code_proof_bytes: Seq<u8>,
    pub osp_proof_bytes: Seq<u8>,
    pub checkpoint: Checkpoint,
    pub pre_hash: Seq<u8>,
    pub post_hash: Seq<u8>,
}

impl View for GeneratedProof {
    type V = GeneratedModel;

    open spec fn view(&self) -> GeneratedModel {
        GeneratedModel {
            code_proof: self.code_proof@,
            code_proof_bytes: self.code_proof_bytes@,
            osp_proof_bytes: self.osp_proof_bytes@,
            checkpoint: self.checkpoint,
            pre_hash: self.pre_hash@,
            post_hash: self.post_hash@,
        }
    }
}

impl JournalModel {
    /// Both hashes are 32 bytes wide. Holds of the model of every [`Journal`].
    pub open spec fn wf(self) -> bool {
        match self {
            JournalModel::PostHash { post_hash } => post_hash.len() == 32,
            JournalModel::Transition { pre_hash, post_hash } => pre_hash.len() == 32
                && post_hash.len() == 32,
        }
    }

    /// The encoding in which a guest commits this journal.
    pub open spec fn mode(self) -> Mode {
        match self {
            JournalModel::PostHash { .. } => Mode::Native,
            JournalModel::Transition { .. } => Mode::Abi,
        }
    }
}

/// Whether two hashes are the same.
pub fn hash_eq(a: &[u8; 32], b: &[u8; 32]) -> (r: bool)
    ensures
        r == (a@ == b@),
{
    let mut i: usize = 0;
    while i < 32
        invariant
            i <= 32,
            forall|j: int| 0 <= j < i ==> a@[j] == b@[j],
        decreases 32 - i,
    {
        if a[i] != b[i] {
            return false;
        }
        i = i + 1;
    }
    assert(a@ =~= b@);
    true
}

/// The models of a list of byte blocks, in order.
pub open spec fn block_models(blocks: Seq<Vec<u8>>) -> Seq<Seq<u8>> {
    Seq::new(blocks.len(), |i: int| blocks[i]@)
}

} // verus!
