//! The contract ABI encoding of the values this crate puts on the wire, and the
//! bindings to the `ethabi` crate that produce and read it.
//!
//! Only two kinds of value occur: byte strings of a fixed width of at most one
//! word (`bytesN`) and byte strings of any length (`bytes`). The model below
//! describes the head/tail layout of a list of such values. The three functions
//! at the end of the file hand the work to `ethabi`; their contracts are assumed,
//! everything else in the crate is proved from them.

use vstd::prelude::*;

verus! {

/// The type of one encoded value.
#[derive(Clone, Copy, Debug)]
pub enum AbiKind {
    /// `bytesN`: exactly this many bytes, padded on the right to one word.
    FixedBytes(usize),
    /// `bytes`: a length word followed by the bytes, padded to whole words.
    Bytes,
}

/// One value to encode, or one decoded value.
#[derive(Debug)]
pub enum AbiToken {
    FixedBytes(Vec<u8>),
    Bytes(Vec<u8>),
}

/// What an [`AbiToken`] stands for.
pub enum TokenModel {
    FixedBytes(Seq<u8>),
    Bytes(Seq<u8>),
}

impl View for AbiToken {
    type V = TokenModel;

    open spec fn view(&self) -> TokenModel {
        match self {
            AbiToken::FixedBytes(b) => TokenModel::FixedBytes(b@),
            AbiToken::Bytes(b) => TokenModel::Bytes(b@),
        }
    }
}

/// The models of a list of tokens, in order.
pub open spec fn token_models(tokens: Seq<AbiToken>) -> Seq<TokenModel> {
    Seq::new(tokens.len(), |i: int| tokens[i]@)
}

/// `n` zero bytes.
pub open spec fn zeros(n: nat) -> Seq<u8> {
    Seq::new(n, |i: int| 0u8)
}

/// How many zero bytes follow `n` bytes to fill the last word.
pub open spec fn pad_len(n: nat) -> nat {
    ((32 - n % 32) % 32) as nat
}

/// `bytes` followed by zeros up to a whole number of words.
pub open spec fn right_padded(bytes: Seq<u8>) -> Seq<u8> {
    bytes + zeros(pad_len(bytes.len()))
}

/// The word that holds the number `n`, big-endian, for `n` below 2^32.
pub open spec fn be_word(n: nat) -> Seq<u8> {
    zeros(28) + seq![
        (n / 0x100_0000 % 256) as u8,
        (n / 0x1_0000 % 256) as u8,
        (n / 0x100 % 256) as u8,
        (n % 256) as u8,
    ]
}

/// The number that a word holds, if its upper 28 bytes are zero.
pub open spec fn word_value(word: Seq<u8>) -> Option<int> {
    if forall|i: int| 0 <= i < 28 ==> word[i] == 0 {
        Some(
            (word[28] as int) * 0x100_0000 + (word[29] as int) * 0x1_0000 + (word[30] as int)
                * 0x100 + (word[31] as int),
        )
    } else {
        None
    }
}

/// What a value adds to the tail section: nothing for `bytesN`, the length word
/// and the padded bytes for `bytes`.
pub open spec fn token_tail(token: TokenModel) -> Seq<u8> {
    match token {
        TokenModel::FixedBytes(_) => Seq::empty(),
        TokenModel::Bytes(b) => be_word(b.len()) + right_padded(b),
    }
}

/// The tail section of a list of values: their tails in order.
pub open spec fn tails(tokens: Seq<TokenModel>) -> Seq<u8>
    decreases tokens.len(),
{
    if tokens.len() == 0 {
        Seq::empty()
    } else {
        tails(tokens.drop_last()) + token_tail(tokens.last())
    }
}

/// The head word of value `i`: the padded bytes of a `bytesN`, or for `bytes` the
/// offset of its tail from the start of the encoding.
pub open spec fn token_head(tokens: Seq<TokenModel>, i: int) -> Seq<u8> {
    match tokens[i] {
        TokenModel::FixedBytes(b) => right_padded(b),
        TokenModel::Bytes(_) => be_word(32 * tokens.len() + tails(tokens.take(i)).len()),
    }
}

/// The head words of the first `n` values.
pub open spec fn heads(tokens: Seq<TokenModel>, n: nat) -> Seq<u8>
    decreases n,
{
    if n == 0 {
        Seq::empty()
    } else {
        heads(tokens, (n - 1) as nat) + token_head(tokens, n - 1)
    }
}

/// The encoding of a list of values: all heads, then all tails.
pub open spec fn abi_wire(tokens: Seq<TokenModel>) -> Seq<u8> {
    heads(tokens, tokens.len()) + tails(tokens)
}

/// The longest encoding that the encoder can build where addresses are narrower
/// than 64 bits: it reserves one word for every byte of the encoding, and 32
/// times this many bytes is the most that can be reserved there.
pub const MAX_NARROW_ENCODING: usize = 0x3FF_FFFF;

/// The lists that the encoder is asked to encode here: every `bytesN` holds
/// between 1 and 32 bytes; the whole encoding is shorter than 2^32 bytes, so
/// that every offset and length fits the 32 bits the encoder computes in; and
/// on a machine with narrow addresses it is at most [`MAX_NARROW_ENCODING`]
/// bytes long.
pub open spec fn encodable(tokens: Seq<TokenModel>) -> bool {
    &&& forall|i: int|
        0 <= i < tokens.len() ==> (#[trigger] tokens[i] matches TokenModel::FixedBytes(b) ==> 1
            <= b.len() <= 32)
    &&& 32 * tokens.len() + tails(tokens).len() <= u32::MAX
    &&& wide_addresses() || 32 * tokens.len() + tails(tokens).len() <= MAX_NARROW_ENCODING
}

/// The value of type `kind` whose head word starts at `offset` in `data`, if the
/// data holds one: a `bytesN` is read in place; for `bytes` the head word gives
/// the place of the length word, and the bytes follow the length word. `None`
/// when a word has a nonzero upper byte or anything read lies beyond the data.
pub open spec fn parse_at(kind: AbiKind, data: Seq<u8>, offset: int) -> Option<TokenModel> {
    match kind {
        AbiKind::FixedBytes(len) => {
            if offset + len <= data.len() {
                Some(TokenModel::FixedBytes(data.subrange(offset, offset + len)))
            } else {
                None
            }
        },
        AbiKind::Bytes => {
            if offset + 32 > data.len() {
                None
            } else {
                match word_value(data.subrange(offset, offset + 32)) {
                    None => None,
                    Some(at) => {
                        if at + 32 > data.len() {
                            None
                        } else {
                            match word_value(data.subrange(at, at + 32)) {
                                None => None,
                                Some(len) => {
                                    if at + 32 + len > data.len() {
                                        None
                                    } else {
                                        Some(
                                            TokenModel::Bytes(
                                                data.subrange(at + 32, at + 32 + len),
                                            ),
                                        )
                                    }
                                },
                            }
                        }
                    },
                }
            }
        },
    }
}

/// Every value of `kinds` can be read from `data`, value `i` from head word `i`.
pub open spec fn parses(kinds: Seq<AbiKind>, data: Seq<u8>) -> bool {
    forall|i: int| 0 <= i < kinds.len() ==> (#[trigger] parse_at(kinds[i], data, 32 * i)) is Some
}

/// The values of `kinds` read from `data`, where [`parses`] holds.
pub open spec fn parsed(kinds: Seq<AbiKind>, data: Seq<u8>) -> Seq<TokenModel> {
    Seq::new(kinds.len(), |i: int| parse_at(kinds[i], data, 32 * i)->0)
}

/// Every `bytesN` in `kinds` is between 1 and 32 bytes wide.
pub open spec fn widths_valid(kinds: Seq<AbiKind>) -> bool {
    forall|i: int|
        0 <= i < kinds.len() ==> (#[trigger] kinds[i] matches AbiKind::FixedBytes(len) ==> 1 <= len
            <= 32)
}

/// No kind in `kinds` is `bytes`.
pub open spec fn all_fixed(kinds: Seq<AbiKind>) -> bool {
    forall|i: int| 0 <= i < kinds.len() ==> #[trigger] kinds[i] is FixedBytes
}

/// Addresses are 64 bits wide. No sum of two 32-bit numbers overflows a `usize`
/// on such a machine.
pub open spec fn wide_addresses() -> bool {
    usize::BITS == 64
}

/// The decoder's error. Nothing is known of a value of it.
#[verifier::external_type_specification]
#[verifier::external_body]
pub struct ExAbiError(ethabi::Error);

/// `ethabi::encode`. Assumed: for a list that is [`encodable`] the call returns,
/// and the result is the head/tail encoding [`abi_wire`] of the list.
#[verifier::external_body]
pub(crate) fn abi_encode(tokens: &Vec<AbiToken>) -> (out: Vec<u8>)
    requires
        encodable(token_models(tokens@)),
    ensures
        out@ == abi_wire(token_models(tokens@)),
{
    let list: Vec<ethabi::Token> = tokens.iter().map(
        |t| match t {
            AbiToken::FixedBytes(b) => ethabi::Token::FixedBytes(b.clone()),
            AbiToken::Bytes(b) => ethabi::Token::Bytes(b.clone()),
        },
    ).collect();
    ethabi::encode(&list)
}

/// `ethabi::decode`, which reads the values and ignores what follows them.
/// Assumed: it succeeds exactly when every value can be read as [`parse_at`]
/// says, and then returns those values (`None` stands for a value of a kind that
/// was not asked for, which the contract rules out). The decoder adds the
/// offsets and lengths that it reads as `usize`. Where addresses are narrow it
/// is called only on data from which every value can be read: each sum is then
/// at most the length of the data.
#[verifier::external_body]
pub(crate) fn abi_decode(kinds: &Vec<AbiKind>, data: &[u8]) -> (r: Result<
    Vec<Option<AbiToken>>,
    ethabi::Error,
>)
    requires
        widths_valid(kinds@),
        wide_addresses() || parses(kinds@, data@),
    ensures
        r is Ok <==> parses(kinds@, data@),
        r matches Ok(tokens) ==> tokens@.len() == kinds@.len() && forall|i: int|
            0 <= i < tokens@.len() ==> (#[trigger] tokens@[i] matches Some(t) && t@ == parsed(
                kinds@,
                data@,
            )[i]),
{
    let types: Vec<ethabi::ParamType> = kinds.iter().map(
        |k| match k {
            AbiKind::FixedBytes(n) => ethabi::ParamType::FixedBytes(*n),
            AbiKind::Bytes => ethabi::ParamType::Bytes,
        },
    ).collect();
    let tokens = ethabi::decode(&types, data)?;
    Ok(tokens.into_iter().map(
        |t| match t {
            ethabi::Token::FixedBytes(b) => Some(AbiToken::FixedBytes(b)),
            ethabi::Token::Bytes(b) => Some(AbiToken::Bytes(b)),
            _ => None,
        },
    ).collect())
}

/// `ethabi::decode_whole`, which also fails when data is left over. It is called
/// with `bytesN` kinds only. Assumed: it succeeds exactly when the data is one
/// word per value, and then returns the leading bytes of each word.
#[verifier::external_body]
pub(crate) fn abi_decode_whole(kinds: &Vec<AbiKind>, data: &[u8]) -> (r: Result<
    Vec<Option<AbiToken>>,
    ethabi::Error,
>)
    requires
        all_fixed(kinds@),
        widths_valid(kinds@),
    ensures
        r is Ok <==> data@.len() == 32 * kinds@.len(),
        r matches Ok(tokens) ==> tokens@.len() == kinds@.len() && forall|i: int|
            0 <= i < tokens@.len() ==> (#[trigger] tokens@[i] matches Some(t) && t@ == parsed(
                kinds@,
                data@,
            )[i]),
{
    let types: Vec<ethabi::ParamType> = kinds.iter().map(
        |k| match k {
            AbiKind::FixedBytes(n) => ethabi::ParamType::FixedBytes(*n),
            AbiKind::Bytes => ethabi::ParamType::Bytes,
        },
    ).collect();
    let tokens = ethabi::decode_whole(&types, data)?;
    Ok(tokens.into_iter().map(
        |t| match t {
            ethabi::Token::FixedBytes(b) => Some(AbiToken::FixedBytes(b)),
            ethabi::Token::Bytes(b) => Some(AbiToken::Bytes(b)),
            _ => None,
        },
    ).collect())
}

} // verus!
