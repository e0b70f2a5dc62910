//! The input of the proving backend: an ordered list of byte blocks that holds
//! a proof envelope in one of the two encodings.

use crate::codec::{
    decode_submission, encode_submission, lemma_submission_round_trip, proof_encodable,
    submission_parse, submission_wire, to_hash,
};
use crate::error::ProofError;
use crate::model::{
    block_models, EnvelopeModel, GeneratedModel, GeneratedProof, Mode, ProofEnvelope,
};
use vstd::prelude::*;
use vstd::slice::slice_to_vec;

verus! {

/// The blocks of an envelope. Native: the proof, the code proof and the expected
/// hash, one block each. ABI: one block, the encoded tuple.
pub open spec fn envelope_blocks(envelope: EnvelopeModel) -> Seq<Seq<u8>> {
    match envelope {
        EnvelopeModel::Native { osp_proof, code_proof, expected_post_hash } => seq![
            osp_proof,
            code_proof,
            expected_post_hash,
        ],
        EnvelopeModel::Abi { inst_root, func_root, proof } => seq![
            submission_wire(inst_root, func_root, proof),
        ],
    }
}

/// The envelope that `blocks` hold in encoding `mode`, if any. Native: exactly
/// three blocks, the third 32 bytes wide. ABI: exactly one block that holds a
/// submission.
pub open spec fn envelope_parse(mode: Mode, blocks: Seq<Seq<u8>>) -> Option<EnvelopeModel> {
    match mode {
        Mode::Native => {
            if blocks.len() == 3 && blocks[2].len() == 32 {
                Some(
                    EnvelopeModel::Native {
                        osp_proof: blocks[0],
                        code_proof: blocks[1],
                        expected_post_hash: blocks[2],
                    },
                )
            } else {
                None
            }
        },
        Mode::Abi => {
            if blocks.len() == 1 {
                match submission_parse(blocks[0]) {
                    Some((inst_root, func_root, proof)) => Some(
                        EnvelopeModel::Abi { inst_root, func_root, proof },
                    ),
                    None => None,
                }
            } else {
                None
            }
        },
    }
}

/// The envelope that carries a generated proof in encoding `mode`. The native
/// envelope announces the hash after the step; the ABI envelope carries the two
/// roots in place of the serialised code proof.
pub open spec fn envelope_of(mode: Mode, generated: GeneratedModel) -> EnvelopeModel {
    match mode {
        Mode::Native => EnvelopeModel::Native {
            osp_proof: generated.osp_proof_bytes,
            code_proof: generated.code_proof_bytes,
            expected_post_hash: generated.post_hash,
        },
        Mode::Abi => EnvelopeModel::Abi {
            inst_root: generated.code_proof.inst_root,
            func_root: generated.code_proof.func_root,
            proof: generated.osp_proof_bytes,
        },
    }
}

impl ProofEnvelope {
    /// The envelope as input blocks.
    pub fn to_blocks(&self) -> (blocks: Vec<Vec<u8>>)
        requires
            self@.encodable(),
        ensures
            block_models(blocks@) == envelope_blocks(self@),
    {
        let mut blocks: Vec<Vec<u8>> = Vec::new();
        match self {
            ProofEnvelope::Native { osp_proof, code_proof, expected_post_hash } => {
                blocks.push(slice_to_vec(osp_proof.as_slice()));
                blocks.push(slice_to_vec(code_proof.as_slice()));
                blocks.push(slice_to_vec(expected_post_hash.as_slice()));
            },
            ProofEnvelope::Abi { inst_root, func_root, proof } => {
                blocks.push(encode_submission(inst_root, func_root, proof.as_slice()));
            },
        }
        assert(block_models(blocks@) =~= envelope_blocks(self@));
        blocks
    }

    /// Reads an envelope from input blocks.
    pub fn from_blocks(mode: Mode, blocks: Vec<Vec<u8>>) -> (r: Result<ProofEnvelope, ProofError>)
        ensures
            r is Ok <==> envelope_parse(mode, block_models(blocks@)) is Some,
            r matches Ok(envelope) ==> envelope_parse(mode, block_models(blocks@)) == Some(
                envelope@,
            ),
            r matches Err(e) ==> e == ProofError::Decode,
    {
        let mut blocks = blocks;
        let ghost given = blocks@;
        match mode {
            Mode::Native => {
                if blocks.len() != 3 {
                    return Err(ProofError::Decode);
                }
                let third = blocks.pop();
                let second = blocks.pop();
                let first = blocks.pop();
                assert(third == Some(given[2]));
                assert(second == Some(given[1]));
                assert(first == Some(given[0]));
                match (first, second, third) {
                    (Some(osp_proof), Some(code_proof), Some(hash)) => {
                        match to_hash(&hash) {
                            Some(expected_post_hash) => Ok(
                                ProofEnvelope::Native { osp_proof, code_proof, expected_post_hash },
                            ),
                            None => Err(ProofError::Decode),
                        }
                    },
                    _ => Err(ProofError::Decode),
                }
            },
            Mode::Abi => {
                if blocks.len() != 1 {
                    return Err(ProofError::Decode);
                }
                match decode_submission(blocks[0].as_slice()) {
                    Ok((inst_root, func_root, proof)) => Ok(
                        ProofEnvelope::Abi { inst_root, func_root, proof },
                    ),
                    Err(_) => Err(ProofError::Decode),
                }
            },
        }
    }
}

/// Builds the input blocks that submit a generated proof in encoding `mode`.
pub fn create_env(mode: Mode, generated: &GeneratedProof) -> (blocks: Vec<Vec<u8>>)
    requires
        mode is Abi ==> proof_encodable(generated@.osp_proof_bytes.len()),
    ensures
        block_models(blocks@) == envelope_blocks(envelope_of(mode, generated@)),
{
    let envelope = match mode {
        Mode::Native => ProofEnvelope::Native {
            osp_proof: slice_to_vec(generated.osp_proof_bytes.as_slice()),
            code_proof: slice_to_vec(generated.code_proof_bytes.as_slice()),
            expected_post_hash: generated.post_hash,
        },
        Mode::Abi => ProofEnvelope::Abi {
            inst_root: generated.code_proof.inst_root,
            func_root: generated.code_proof.func_root,
            proof: slice_to_vec(generated.osp_proof_bytes.as_slice()),
        },
    };
    assert(envelope@ == envelope_of(mode, generated@));
    envelope.to_blocks()
}

/// Reading the blocks of an envelope in its own encoding gives back the
/// envelope.
pub proof fn lemma_envelope_round_trip(envelope: EnvelopeModel)
    requires
        envelope.wf(),
    ensures
        envelope_parse(envelope.mode(), envelope_blocks(envelope)) == Some(envelope),
{
    match envelope {
        EnvelopeModel::Native { .. } => {},
        EnvelopeModel::Abi { inst_root, func_root, proof } => {
            lemma_submission_round_trip(inst_root, func_root, proof);
        },
    }
}

} // verus!
