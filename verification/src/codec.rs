//! The two tuples that cross the boundary between host and guest, as bytes.
//!
//! A submission is `(instRoot: bytes32, funcRoot: bytes32, proof: bytes)`; a
//! journal is `(preHash: bytes32, postHash: bytes32)`. Both sides call the
//! functions of this file, so both agree on every width.

use crate::abi::{
    abi_decode, abi_decode_whole, abi_encode, abi_wire, be_word, pad_len, parse_at, parsed, parses,
    right_padded, tails, heads, token_models, wide_addresses, word_value, zeros, AbiKind, AbiToken,
    TokenModel,
};
use crate::error::ProofError;
use vstd::prelude::*;
use vstd::slice::slice_to_vec;

verus! {

/// The longest proof that a submission can carry: with it the encoding is the
/// longest whose offsets and lengths still fit 32 bits.
pub const MAX_PROOF_BYTES: usize = 0xFFFF_FF60;

/// The longest proof that can be encoded where addresses are narrower than 64
/// bits: with it the encoding is [`MAX_NARROW_ENCODING`] bytes at most.
pub const MAX_NARROW_PROOF_BYTES: usize = 0x3FF_FF60;

/// A proof of `len` bytes can be encoded on this machine.
pub open spec fn proof_encodable(len: nat) -> bool {
    len <= MAX_PROOF_BYTES && (wide_addresses() || len <= MAX_NARROW_PROOF_BYTES)
}

/// Whether a proof of `len` bytes can be encoded on this machine.
pub fn is_proof_encodable(len: usize) -> (r: bool)
    ensures
        r == proof_encodable(len as nat),
{
    len <= MAX_PROOF_BYTES && (usize::BITS == 64 || len <= MAX_NARROW_PROOF_BYTES)
}

/// The bytes of a submission: the two roots, the offset of the proof's length
/// word (three head words, 96), the length word, and the proof padded with zeros
/// to whole words.
pub open spec fn submission_wire(inst_root: Seq<u8>, func_root: Seq<u8>, proof: Seq<u8>) -> Seq<
    u8,
> {
    inst_root + func_root + be_word(96) + be_word(proof.len()) + proof + zeros(
        pad_len(proof.len()),
    )
}

/// The submission that `data` holds, if any: the first two words are the roots,
/// the third word leads to the proof as [`parse_at`] describes. Bytes that
/// nothing refers to are ignored.
pub open spec fn submission_parse(data: Seq<u8>) -> Option<(Seq<u8>, Seq<u8>, Seq<u8>)> {
    if data.len() < 64 {
        None
    } else {
        match parse_at(AbiKind::Bytes, data, 64) {
            Some(TokenModel::Bytes(proof)) => Some(
                (data.subrange(0, 32), data.subrange(32, 64), proof),
            ),
            _ => None,
        }
    }
}

/// The kinds of a submission's three values.
pub open spec fn submission_kinds() -> Seq<AbiKind> {
    seq![AbiKind::FixedBytes(32), AbiKind::FixedBytes(32), AbiKind::Bytes]
}

/// The kinds of a journal's two values.
pub open spec fn journal_kinds() -> Seq<AbiKind> {
    seq![AbiKind::FixedBytes(32), AbiKind::FixedBytes(32)]
}

/// The 32 bytes of `bytes` as an array, if it holds exactly 32.
pub fn to_hash(bytes: &Vec<u8>) -> (r: Option<[u8; 32]>)
    ensures
        r is Some <==> bytes@.len() == 32,
        r matches Some(h) ==> h@ == bytes@,
{
    if bytes.len() != 32 {
        return None;
    }
    let mut hash = [0u8; 32];
    let mut i: usize = 0;
    while i < 32
        invariant
            i <= 32,
            bytes@.len() == 32,
            forall|j: int| 0 <= j < i ==> hash@[j] == bytes@[j],
        decreases 32 - i,
    {
        hash[i] = bytes[i];
        i = i + 1;
    }
    assert(hash@ =~= bytes@);
    Some(hash)
}

proof fn lemma_word_round_trip(n: nat)
    requires
        n <= u32::MAX,
    ensures
        be_word(n).len() == 32,
        word_value(be_word(n)) == Some(n as int),
{
    let w = be_word(n);
    assert(forall|i: int| 0 <= i < 28 ==> w[i] == 0);
    assert(w[28] == (n / 0x100_0000 % 256) as u8);
    assert(w[29] == (n / 0x1_0000 % 256) as u8);
    assert(w[30] == (n / 0x100 % 256) as u8);
    assert(w[31] == (n % 256) as u8);
}

proof fn lemma_submission_layout(inst_root: Seq<u8>, func_root: Seq<u8>, proof: Seq<u8>)
    requires
        inst_root.len() == 32,
        func_root.len() == 32,
    ensures
        abi_wire(
            seq![
                TokenModel::FixedBytes(inst_root),
                TokenModel::FixedBytes(func_root),
                TokenModel::Bytes(proof),
            ],
        ) == submission_wire(inst_root, func_root, proof),
        tails(
            seq![
                TokenModel::FixedBytes(inst_root),
                TokenModel::FixedBytes(func_root),
                TokenModel::Bytes(proof),
            ],
        ).len() == 32 + proof.len() + pad_len(proof.len()),
{
    let ts = seq![
        TokenModel::FixedBytes(inst_root),
        TokenModel::FixedBytes(func_root),
        TokenModel::Bytes(proof),
    ];
    let t2 = seq![TokenModel::FixedBytes(inst_root), TokenModel::FixedBytes(func_root)];
    let t1 = seq![TokenModel::FixedBytes(inst_root)];
    assert(ts.drop_last() =~= t2);
    assert(t2.drop_last() =~= t1);
    assert(ts.take(2) =~= t2);
    assert(t1.drop_last() =~= Seq::<TokenModel>::empty());
    assert(tails(t1) =~= Seq::<u8>::empty()) by {
        reveal_with_fuel(tails, 2);
    }
    assert(tails(t2) =~= Seq::<u8>::empty()) by {
        reveal_with_fuel(tails, 2);
    }
    assert(tails(ts) =~= be_word(proof.len()) + right_padded(proof));
    assert(right_padded(inst_root) =~= inst_root);
    assert(right_padded(func_root) =~= func_root);
    assert(heads(ts, 3) =~= inst_root + func_root + be_word(96)) by {
        reveal_with_fuel(heads, 4);
    }
    assert(abi_wire(ts) =~= submission_wire(inst_root, func_root, proof));
}

/// Encodes a submission.
pub fn encode_submission(inst_root: &[u8; 32], func_root: &[u8; 32], proof: &[u8]) -> (out: Vec<
    u8,
>)
    requires
        proof_encodable(proof@.len()),
    ensures
        out@ == submission_wire(inst_root@, func_root@, proof@),
{
    let mut tokens: Vec<AbiToken> = Vec::new();
    tokens.push(AbiToken::FixedBytes(slice_to_vec(inst_root.as_slice())));
    tokens.push(AbiToken::FixedBytes(slice_to_vec(func_root.as_slice())));
    tokens.push(AbiToken::Bytes(slice_to_vec(proof)));
    proof {
        let ts = seq![
            TokenModel::FixedBytes(inst_root@),
            TokenModel::FixedBytes(func_root@),
            TokenModel::Bytes(proof@),
        ];
        assert(token_models(tokens@) =~= ts);
        lemma_submission_layout(inst_root@, func_root@, proof@);
    }
    abi_encode(&tokens)
}

/// The number that the word of `data` at `at` holds, if its upper 28 bytes are
/// zero.
fn read_word(data: &[u8], at: usize) -> (r: Option<u32>)
    requires
        at + 32 <= data@.len(),
    ensures
        r matches Some(n) ==> word_value(data@.subrange(at as int, at + 32)) == Some(n as int),
        r is None ==> word_value(data@.subrange(at as int, at + 32)) is None,
{
    let ghost word = data@.subrange(at as int, at + 32);
    let len = data.len();
    let mut i: usize = 0;
    while i < 28
        invariant
            i <= 28,
            len == data@.len(),
            at + 32 <= len,
            word == data@.subrange(at as int, at + 32),
            forall|j: int| 0 <= j < i ==> word[j] == 0,
        decreases 28 - i,
    {
        if data[at + i] != 0 {
            assert(word[i as int] != 0);
            return None;
        }
        i = i + 1;
    }
    let b0: u32 = data[at + 28] as u32;
    let b1: u32 = data[at + 29] as u32;
    let b2: u32 = data[at + 30] as u32;
    let b3: u32 = data[at + 31] as u32;
    assert(word[28] == b0 && word[29] == b1 && word[30] == b2 && word[31] == b3);
    Some(b0 * 0x100_0000 + b1 * 0x1_0000 + b2 * 0x100 + b3)
}

/// Whether `data` holds a submission: whether the offset word and the length
/// word can be read and the proof they announce lies within the data. Every sum
/// is formed in 64 bits.
fn submission_in_range(data: &[u8]) -> (ok: bool)
    ensures
        ok == (submission_parse(data@) is Some),
{
    let len: u64 = data.len() as u64;
    if len < 96 {
        return false;
    }
    match read_word(data, 64) {
        None => false,
        Some(at) => {
            if at as u64 + 32 > len {
                return false;
            }
            match read_word(data, at as usize) {
                None => false,
                Some(n) => at as u64 + 32 + n as u64 <= len,
            }
        },
    }
}

/// Decodes a submission.
pub fn decode_submission(data: &[u8]) -> (r: Result<([u8; 32], [u8; 32], Vec<u8>), ProofError>)
    ensures
        r is Ok <==> submission_parse(data@) is Some,
        r matches Ok((inst_root, func_root, proof)) ==> submission_parse(data@) == Some(
            (inst_root@, func_root@, proof@),
        ),
        r matches Err(e) ==> e == ProofError::Decode,
{
    if usize::BITS != 64 && !submission_in_range(data) {
        return Err(ProofError::Decode);
    }
    let mut kinds: Vec<AbiKind> = Vec::new();
    kinds.push(AbiKind::FixedBytes(32));
    kinds.push(AbiKind::FixedBytes(32));
    kinds.push(AbiKind::Bytes);
    assert(kinds@ =~= submission_kinds());
    proof {
        lemma_submission_parses(data@);
    }
    let mut tokens = match abi_decode(&kinds, data) {
        Ok(tokens) => tokens,
        Err(_) => {
            return Err(ProofError::Decode);
        },
    };
    if tokens.len() != 3 {
        return Err(ProofError::Decode);
    }
    let ghost decoded = tokens@;
    let third = tokens.pop();
    let second = tokens.pop();
    let first = tokens.pop();
    assert(third == Some(decoded[2]));
    assert(second == Some(decoded[1]));
    assert(first == Some(decoded[0]));
    match (first, second, third) {
        (
            Some(Some(AbiToken::FixedBytes(a))),
            Some(Some(AbiToken::FixedBytes(b))),
            Some(Some(AbiToken::Bytes(proof))),
        ) => {
            match (to_hash(&a), to_hash(&b)) {
                (Some(inst_root), Some(func_root)) => Ok((inst_root, func_root, proof)),
                _ => Err(ProofError::Decode),
            }
        },
        _ => Err(ProofError::Decode),
    }
}

/// Reading the three kinds of a submission is reading a submission.
proof fn lemma_submission_parses(data: Seq<u8>)
    ensures
        parses(submission_kinds(), data) <==> submission_parse(data) is Some,
        submission_parse(data) matches Some((inst_root, func_root, proof)) ==> {
            &&& parsed(submission_kinds(), data)[0] == TokenModel::FixedBytes(inst_root)
            &&& parsed(submission_kinds(), data)[1] == TokenModel::FixedBytes(func_root)
            &&& parsed(submission_kinds(), data)[2] == TokenModel::Bytes(proof)
            &&& inst_root.len() == 32
            &&& func_root.len() == 32
        },
{
    let kinds = submission_kinds();
    if parses(kinds, data) {
        assert(parse_at(kinds[0], data, 32 * 0int) is Some);
        assert(parse_at(kinds[1], data, 32 * 1int) is Some);
        assert(parse_at(kinds[2], data, 32 * 2int) is Some);
    }
    if submission_parse(data) is Some {
        assert forall|i: int| 0 <= i < kinds.len() implies (#[trigger] parse_at(
            kinds[i],
            data,
            32 * i,
        )) is Some by {
            if i == 0 {
            } else if i == 1 {
            } else {
                assert(i == 2);
            }
        }
    }
}

/// The bytes of a journal: the hash before the step, then the hash after it.
pub open spec fn journal_wire(pre_hash: Seq<u8>, post_hash: Seq<u8>) -> Seq<u8> {
    pre_hash + post_hash
}

/// The journal that `data` holds, if it is exactly two words.
pub open spec fn journal_parse(data: Seq<u8>) -> Option<(Seq<u8>, Seq<u8>)> {
    if data.len() == 64 {
        Some((data.subrange(0, 32), data.subrange(32, 64)))
    } else {
        None
    }
}

proof fn lemma_journal_layout(pre_hash: Seq<u8>, post_hash: Seq<u8>)
    requires
        pre_hash.len() == 32,
        post_hash.len() == 32,
    ensures
        abi_wire(seq![TokenModel::FixedBytes(pre_hash), TokenModel::FixedBytes(post_hash)])
            == journal_wire(pre_hash, post_hash),
        tails(seq![TokenModel::FixedBytes(pre_hash), TokenModel::FixedBytes(post_hash)]).len()
            == 0,
{
    let t2 = seq![TokenModel::FixedBytes(pre_hash), TokenModel::FixedBytes(post_hash)];
    let t1 = seq![TokenModel::FixedBytes(pre_hash)];
    assert(t2.drop_last() =~= t1);
    assert(t1.drop_last() =~= Seq::<TokenModel>::empty());
    assert(tails(t1) =~= Seq::<u8>::empty()) by {
        reveal_with_fuel(tails, 2);
    }
    assert(tails(t2) =~= Seq::<u8>::empty());
    assert(right_padded(pre_hash) =~= pre_hash);
    assert(right_padded(post_hash) =~= post_hash);
    assert(heads(t2, 2) =~= pre_hash + post_hash) by {
        reveal_with_fuel(heads, 3);
    }
    assert(abi_wire(t2) =~= journal_wire(pre_hash, post_hash));
}

/// Encodes a journal.
pub fn encode_journal(pre_hash: &[u8; 32], post_hash: &[u8; 32]) -> (out: Vec<u8>)
    ensures
        out@ == journal_wire(pre_hash@, post_hash@),
{
    let mut tokens: Vec<AbiToken> = Vec::new();
    tokens.push(AbiToken::FixedBytes(slice_to_vec(pre_hash.as_slice())));
    tokens.push(AbiToken::FixedBytes(slice_to_vec(post_hash.as_slice())));
    proof {
        let ts = seq![TokenModel::FixedBytes(pre_hash@), TokenModel::FixedBytes(post_hash@)];
        assert(token_models(tokens@) =~= ts);
        lemma_journal_layout(pre_hash@, post_hash@);
    }
    abi_encode(&tokens)
}

/// Decodes a journal, which must be the whole of `data`.
pub fn decode_journal(data: &[u8]) -> (r: Result<([u8; 32], [u8; 32]), ProofError>)
    ensures
        r is Ok <==> journal_parse(data@) is Some,
        r matches Ok((pre_hash, post_hash)) ==> journal_parse(data@) == Some(
            (pre_hash@, post_hash@),
        ),
        r matches Err(e) ==> e == ProofError::Decode,
{
    let mut kinds: Vec<AbiKind> = Vec::new();
    kinds.push(AbiKind::FixedBytes(32));
    kinds.push(AbiKind::FixedBytes(32));
    assert(kinds@ =~= journal_kinds());
    let mut tokens = match abi_decode_whole(&kinds, data) {
        Ok(tokens) => tokens,
        Err(_) => {
            return Err(ProofError::Decode);
        },
    };
    if tokens.len() != 2 {
        return Err(ProofError::Decode);
    }
    let ghost decoded = tokens@;
    let second = tokens.pop();
    let first = tokens.pop();
    assert(second == Some(decoded[1]));
    assert(first == Some(decoded[0]));
    assert(parsed(journal_kinds(), data@)[0] == TokenModel::FixedBytes(data@.subrange(0, 32)));
    assert(parsed(journal_kinds(), data@)[1] == TokenModel::FixedBytes(data@.subrange(32, 64)));
    match (first, second) {
        (Some(Some(AbiToken::FixedBytes(a))), Some(Some(AbiToken::FixedBytes(b)))) => {
            match (to_hash(&a), to_hash(&b)) {
                (Some(pre_hash), Some(post_hash)) => Ok((pre_hash, post_hash)),
                _ => Err(ProofError::Decode),
            }
        },
        _ => Err(ProofError::Decode),
    }
}

/// Decoding what was encoded gives back the submission: both roots and every
/// byte of the proof, whatever its length up to [`MAX_PROOF_BYTES`].
pub proof fn lemma_submission_round_trip(inst_root: Seq<u8>, func_root: Seq<u8>, proof: Seq<u8>)
    requires
        inst_root.len() == 32,
        func_root.len() == 32,
        proof.len() <= MAX_PROOF_BYTES,
    ensures
        submission_parse(submission_wire(inst_root, func_root, proof)) == Some(
            (inst_root, func_root, proof),
        ),
{
    let data = submission_wire(inst_root, func_root, proof);
    lemma_word_round_trip(96);
    lemma_word_round_trip(proof.len());
    assert(data.len() == 128 + proof.len() + pad_len(proof.len()));
    assert(data.subrange(0, 32) =~= inst_root);
    assert(data.subrange(32, 64) =~= func_root);
    assert(data.subrange(64, 96) =~= be_word(96));
    assert(data.subrange(96, 128) =~= be_word(proof.len()));
    assert(data.subrange(128, 128 + proof.len() as int) =~= proof);
}

/// Decoding an encoded journal gives back both hashes.
pub proof fn lemma_journal_round_trip(pre_hash: Seq<u8>, post_hash: Seq<u8>)
    requires
        pre_hash.len() == 32,
        post_hash.len() == 32,
    ensures
        journal_parse(journal_wire(pre_hash, post_hash)) == Some((pre_hash, post_hash)),
{
    let data = journal_wire(pre_hash, post_hash);
    assert(data.subrange(0, 32) =~= pre_hash);
    assert(data.subrange(32, 64) =~= post_hash);
}

/// Two submissions with the same bytes are the same submission: a payload
/// speaks of one pair of roots and one proof only.
pub proof fn lemma_submission_wire_is_injective(
    inst_root: Seq<u8>,
    func_root: Seq<u8>,
    proof: Seq<u8>,
    other_inst_root: Seq<u8>,
    other_func_root: Seq<u8>,
    other_proof: Seq<u8>,
)
    requires
        inst_root.len() == 32,
        func_root.len() == 32,
        proof.len() <= MAX_PROOF_BYTES,
        other_inst_root.len() == 32,
        other_func_root.len() == 32,
        other_proof.len() <= MAX_PROOF_BYTES,
        submission_wire(inst_root, func_root, proof) == submission_wire(
            other_inst_root,
            other_func_root,
            other_proof,
        ),
    ensures
        inst_root == other_inst_root,
        func_root == other_func_root,
        proof == other_proof,
{
    lemma_submission_round_trip(inst_root, func_root, proof);
    lemma_submission_round_trip(other_inst_root, other_func_root, other_proof);
}

} // verus!
