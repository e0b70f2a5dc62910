//! The guest's public output as bytes, and back.

use crate::codec::{
    decode_journal, encode_journal, journal_parse, journal_wire, lemma_journal_round_trip, to_hash,
};
use crate::error::ProofError;
use crate::model::{Journal, JournalModel, Mode};
use vstd::prelude::*;
use vstd::slice::slice_to_vec;

verus! {

/// The bytes that commit a journal: the bare hash in native mode (32 bytes), the
/// ABI tuple of both hashes in ABI mode (64 bytes).
pub open spec fn journal_bytes(journal: JournalModel) -> Seq<u8> {
    match journal {
        JournalModel::PostHash { post_hash } => post_hash,
        JournalModel::Transition { pre_hash, post_hash } => journal_wire(pre_hash, post_hash),
    }
}

/// The journal that `data` holds in encoding `mode`, if any.
pub open spec fn journal_read(mode: Mode, data: Seq<u8>) -> Option<JournalModel> {
    match mode {
        Mode::Native => {
            if data.len() == 32 {
                Some(JournalModel::PostHash { post_hash: data })
            } else {
                None
            }
        },
        Mode::Abi => {
            match journal_parse(data) {
                Some((pre_hash, post_hash)) => Some(
                    JournalModel::Transition { pre_hash, post_hash },
                ),
                None => None,
            }
        },
    }
}

impl Journal {
    /// The bytes to commit.
    pub fn to_bytes(&self) -> (out: Vec<u8>)
        ensures
            out@ == journal_bytes(self@),
    {
        match self {
            Journal::PostHash { post_hash } => slice_to_vec(post_hash.as_slice()),
            Journal::Transition { pre_hash, post_hash } => encode_journal(pre_hash, post_hash),
        }
    }

    /// Reads the journal of a guest that ran in encoding `mode`.
    pub fn from_bytes(mode: Mode, data: &[u8]) -> (r: Result<Journal, ProofError>)
        ensures
            r is Ok <==> journal_read(mode, data@) is Some,
            r matches Ok(journal) ==> journal_read(mode, data@) == Some(journal@),
            r matches Err(e) ==> e == ProofError::Decode,
    {
        match mode {
            Mode::Native => {
                let bytes = slice_to_vec(data);
                match to_hash(&bytes) {
                    Some(post_hash) => Ok(Journal::PostHash { post_hash }),
                    None => Err(ProofError::Decode),
                }
            },
            Mode::Abi => {
                match decode_journal(data) {
                    Ok((pre_hash, post_hash)) => Ok(Journal::Transition { pre_hash, post_hash }),
                    Err(_) => Err(ProofError::Decode),
                }
            },
        }
    }
}

/// Reading the bytes of a journal in its own encoding gives back the journal.
pub proof fn lemma_journal_bytes_round_trip(journal: JournalModel)
    requires
        journal.wf(),
    ensures
        journal_read(journal.mode(), journal_bytes(journal)) == Some(journal),
{
    match journal {
        JournalModel::PostHash { .. } => {},
        JournalModel::Transition { pre_hash, post_hash } => {
            lemma_journal_round_trip(pre_hash, post_hash);
        },
    }
}

} // verus!
