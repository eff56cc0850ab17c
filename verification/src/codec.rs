//! The ABI codec of `ethers`, behind contracts over the values of this crate.

use crate::abi::{
    footprints, kinds_of, spans, values_of, AbiType, AbiValue, Address, Kind, Value,
    ENCODING_LIMIT, U256,
};
use ethers::abi::ParamType as OutsideType;
use ethers::abi::Token as Outside;
use ethers::types::H160;
use vstd::prelude::*;

verus! {

#[verifier::external_type_specification]
#[verifier::external_body]
pub struct ExOutsideToken(ethers::abi::Token);

#[verifier::external_type_specification]
#[verifier::external_body]
pub struct ExOutsideType(ethers::abi::ParamType);

/// The bytes that the ABI encoder gives for a list of values.
pub uninterp spec fn abi_encoding(values: Seq<Value>) -> Seq<u8>;

/// The values that the ABI decoder reads from `data` for a list of kinds, or
/// `None` where it rejects the data.
pub uninterp spec fn abi_decoding(kinds: Seq<Kind>, data: Seq<u8>) -> Option<Seq<Value>>;

/// The four-byte selector of the function with the given name and inputs.
pub uninterp spec fn function_selector(name: Seq<char>, inputs: Seq<Kind>) -> Seq<u8>;

/// The Keccak-256 digest of a byte string.
pub uninterp spec fn keccak256_digest(data: Seq<u8>) -> Seq<u8>;

/// The value that a token of `ethers` holds.
pub uninterp spec fn outside_value(token: ethers::abi::Token) -> Value;

/// The kind that a parameter type of `ethers` stands for.
pub uninterp spec fn outside_kind(param_type: ethers::abi::ParamType) -> Kind;

/// The values that a list of tokens of `ethers` holds, in order.
pub open spec fn outside_values(tokens: Seq<ethers::abi::Token>) -> Seq<Value> {
    Seq::new(tokens.len(), |i: int| outside_value(tokens[i]))
}

/// The kinds that a list of parameter types of `ethers` stands for, in order.
pub open spec fn outside_kinds(types: Seq<ethers::abi::ParamType>) -> Seq<Kind> {
    Seq::new(types.len(), |i: int| outside_kind(types[i]))
}

/// The `ethers::abi::Token` with the same shape and contents as `token`,
/// variant for variant.
#[verifier::external_body]
fn outside_token(token: &AbiValue) -> (outside: Outside)
    ensures
        outside_value(outside) == token@,
{
    match token {
        AbiValue::Address(a) => Outside::Address(H160(a.bytes)),
        AbiValue::FixedBytes(b) => Outside::FixedBytes(b.clone()),
        AbiValue::Bytes(b) => Outside::Bytes(b.clone()),
        AbiValue::Int(v) => Outside::Int(ethers::types::U256(v.limbs)),
        AbiValue::Uint(v) => Outside::Uint(ethers::types::U256(v.limbs)),
        AbiValue::Bool(b) => Outside::Bool(*b),
        AbiValue::String(s) => Outside::String(s.clone()),
        AbiValue::FixedArray(items) => Outside::FixedArray(outside_tokens(items)),
        AbiValue::Array(items) => Outside::Array(outside_tokens(items)),
        AbiValue::Tuple(items) => Outside::Tuple(outside_tokens(items)),
    }
}

/// The token of this crate with the same shape and contents as an
/// `ethers::abi::Token`, variant for variant.
#[verifier::external_body]
fn inside_token(token: &Outside) -> (inside: AbiValue)
    ensures
        inside@ == outside_value(*token),
{
    match token {
        Outside::Address(a) => AbiValue::Address(Address { bytes: a.0 }),
        Outside::FixedBytes(b) => AbiValue::FixedBytes(b.clone()),
        Outside::Bytes(b) => AbiValue::Bytes(b.clone()),
        Outside::Int(v) => AbiValue::Int(U256 { limbs: v.0 }),
        Outside::Uint(v) => AbiValue::Uint(U256 { limbs: v.0 }),
        Outside::Bool(b) => AbiValue::Bool(*b),
        Outside::String(s) => AbiValue::String(s.clone()),
        Outside::FixedArray(items) => AbiValue::FixedArray(inside_tokens(items)),
        Outside::Array(items) => AbiValue::Array(inside_tokens(items)),
        Outside::Tuple(items) => AbiValue::Tuple(inside_tokens(items)),
    }
}

/// The `ethers::abi::ParamType` with the same shape as `param_type`, variant
/// for variant.
#[verifier::external_body]
fn outside_type(param_type: &AbiType) -> (outside: OutsideType)
    ensures
        outside_kind(outside) == param_type@,
{
    match param_type {
        AbiType::Address => OutsideType::Address,
        AbiType::Bytes => OutsideType::Bytes,
        AbiType::Int(n) => OutsideType::Int(*n),
        AbiType::Uint(n) => OutsideType::Uint(*n),
        AbiType::Bool => OutsideType::Bool,
        AbiType::String => OutsideType::String,
        AbiType::Array(t) => OutsideType::Array(Box::new(outside_type(t))),
        AbiType::FixedBytes(n) => OutsideType::FixedBytes(*n),
        AbiType::FixedArray(t, n) => OutsideType::FixedArray(Box::new(outside_type(t)), *n),
        AbiType::Tuple(parts) => OutsideType::Tuple(outside_types(parts)),
    }
}

/// The tokens of `ethers` for a list of tokens, in order.
fn outside_tokens(tokens: &Vec<AbiValue>) -> (outside: Vec<Outside>)
    ensures
        outside_values(outside@) == values_of(tokens@),
{
    let mut outside: Vec<Outside> = Vec::new();
    let mut i: usize = 0;
    while i < tokens.len()
        invariant
            i <= tokens@.len(),
            outside@.len() == i,
            forall|j: int| 0 <= j < i ==> outside_value(#[trigger] outside@[j]) == tokens@[j]@,
        decreases tokens@.len() - i,
    {
        outside.push(outside_token(&tokens[i]));
        i += 1;
    }
    assert(outside_values(outside@) =~= values_of(tokens@));
    outside
}

/// The tokens of this crate for a list of tokens of `ethers`, in order.
fn inside_tokens(tokens: &Vec<Outside>) -> (inside: Vec<AbiValue>)
    ensures
        values_of(inside@) == outside_values(tokens@),
{
    let mut inside: Vec<AbiValue> = Vec::new();
    let mut i: usize = 0;
    while i < tokens.len()
        invariant
            i <= tokens@.len(),
            inside@.len() == i,
            forall|j: int| 0 <= j < i ==> (#[trigger] inside@[j])@ == outside_value(tokens@[j]),
        decreases tokens@.len() - i,
    {
        inside.push(inside_token(&tokens[i]));
        i += 1;
    }
    assert(values_of(inside@) =~= outside_values(tokens@));
    inside
}

/// The parameter types of `ethers` for a list of parameter types, in order.
fn outside_types(types: &Vec<AbiType>) -> (outside: Vec<OutsideType>)
    ensures
        outside_kinds(outside@) == kinds_of(types@),
{
    let mut outside: Vec<OutsideType> = Vec::new();
    let mut i: usize = 0;
    while i < types.len()
        invariant
            i <= types@.len(),
            outside@.len() == i,
            forall|j: int| 0 <= j < i ==> outside_kind(#[trigger] outside@[j]) == types@[j]@,
        decreases types@.len() - i,
    {
        outside.push(outside_type(&types[i]));
        i += 1;
    }
    assert(outside_kinds(outside@) =~= kinds_of(types@));
    outside
}

/// `ethers::abi::encode`.
///
/// The encoder adds sizes up in 32-bit arithmetic; a list whose spans stay
/// within `ENCODING_LIMIT` keeps every such sum in range. What it returns is
/// a function of the values alone.
#[verifier::external_body]
fn abi_encode(tokens: &Vec<Outside>) -> (bytes: Vec<u8>)
    requires
        spans(outside_values(tokens@)) <= ENCODING_LIMIT,
    ensures
        bytes@ == abi_encoding(outside_values(tokens@)),
{
    ethers::abi::encode(tokens)
}

/// `ethers::abi::short_signature`: the first four bytes of the Keccak-256
/// digest of the function's name and input types written as a signature.
#[verifier::external_body]
fn abi_short_signature(name: &str, inputs: &Vec<OutsideType>) -> (selector: [u8; 4])
    ensures
        selector@ == function_selector(name@, outside_kinds(inputs@)),
{
    ethers::abi::short_signature(name, inputs)
}

/// Whether the decoder can be run on data for this kind: byte strings of a
/// declared size hold one to thirty-two bytes, tuples have a part, and nothing
/// is an array of declared length.
pub open spec fn decodable(k: Kind) -> bool
    decreases k,
{
    match k {
        Kind::Address => true,
        Kind::Bytes => true,
        Kind::Int(_) => true,
        Kind::Uint(_) => true,
        Kind::Bool => true,
        Kind::String => true,
        Kind::FixedBytes(n) => 1 <= n <= 32,
        Kind::Array(inner) => decodable(*inner),
        Kind::FixedArray(_, _) => false,
        Kind::Tuple(parts) => parts.len() >= 1 && forall|i: int|
            0 <= i < parts.len() ==> decodable(#[trigger] parts[i]),
    }
}

/// Whether every kind of a list is decodable.
pub open spec fn all_decodable(kinds: Seq<Kind>) -> bool {
    forall|i: int| 0 <= i < kinds.len() ==> decodable(#[trigger] kinds[i])
}

/// `ethers::abi::decode`, with `None` where it returns an error.
///
/// On decodable kinds every step of the decoder reads at its offset and
/// moves on by a word, so it ends on any data; offsets are 32-bit values and
/// are added up in `usize`, which must therefore be wider. What it returns is
/// a function of the kinds and the data alone.
#[verifier::external_body]
fn abi_decode(types: &Vec<OutsideType>, data: &[u8]) -> (tokens: Option<Vec<Outside>>)
    requires
        all_decodable(outside_kinds(types@)),
        usize::BITS == 64,
    ensures
        match tokens {
            Some(list) => abi_decoding(outside_kinds(types@), data@) == Some(
                outside_values(list@),
            ),
            None => abi_decoding(outside_kinds(types@), data@) is None,
        },
{
    ethers::abi::decode(types, data).ok()
}

/// `ethers::utils::keccak256`: the Keccak-256 digest of the bytes.
#[verifier::external_body]
pub(crate) fn keccak256(data: &[u8]) -> (digest: [u8; 32])
    ensures
        digest@ == keccak256_digest(data@),
{
    ethers::utils::keccak256(data)
}

impl AbiType {
    /// Whether data for this type can be handed to the decoder.
    pub fn is_decodable(&self) -> (ok: bool)
        ensures
            ok == decodable(self@),
        decreases self,
    {
        match self {
            AbiType::Address => true,
            AbiType::Bytes => true,
            AbiType::Int(_) => true,
            AbiType::Uint(_) => true,
            AbiType::Bool => true,
            AbiType::String => true,
            AbiType::FixedBytes(n) => 1 <= *n && *n <= 32,
            AbiType::Array(inner) => inner.is_decodable(),
            AbiType::FixedArray(_, _) => false,
            AbiType::Tuple(parts) => {
                let ok = are_decodable(parts);
                assert(self@->Tuple_0 == kinds_of(parts@));
                assert(ok == all_decodable(self@->Tuple_0));
                parts.len() >= 1 && ok
            },
        }
    }
}

/// Whether data for every type of a list can be handed to the decoder.
pub fn are_decodable(types: &Vec<AbiType>) -> (ok: bool)
    ensures
        ok == all_decodable(kinds_of(types@)),
    decreases types,
{
    let mut i: usize = 0;
    while i < types.len()
        invariant
            i <= types@.len(),
            forall|j: int| 0 <= j < i ==> decodable(#[trigger] kinds_of(types@)[j]),
        decreases types@.len() - i,
    {
        if !types[i].is_decodable() {
            assert(!decodable(kinds_of(types@)[i as int]));
            return false;
        }
        i += 1;
    }
    true
}

/// Why data could not be decoded.
#[derive(Clone, Copy, Debug, PartialEq, Eq, Structural)]
pub enum DecodeError {
    /// A type is not decodable, or the machine's offsets are too narrow.
    UnsupportedType,
    /// The data does not start with the function's selector.
    WrongSelector,
    /// The decoder rejected the data.
    InvalidData,
}

/// Whether the decoder can be run for the given kinds on this machine.
pub open spec fn decoder_runs(kinds: Seq<Kind>) -> bool {
    all_decodable(kinds) && usize::BITS == 64
}

/// What `decode` returns for the given kinds and data.
pub open spec fn decoded(kinds: Seq<Kind>, data: Seq<u8>) -> Result<Seq<Value>, DecodeError> {
    if !decoder_runs(kinds) {
        Err(DecodeError::UnsupportedType)
    } else {
        match abi_decoding(kinds, data) {
            Some(values) => Ok(values),
            None => Err(DecodeError::InvalidData),
        }
    }
}

/// The values of an outcome that holds tokens.
pub open spec fn outcome_values<E>(outcome: Result<Vec<AbiValue>, E>) -> Result<Seq<Value>, E> {
    match outcome {
        Ok(list) => Ok(values_of(list@)),
        Err(e) => Err(e),
    }
}

/// The ABI encoding of a list of tokens, or `None` where their spans exceed
/// `ENCODING_LIMIT`.
pub fn encode(tokens: &Vec<AbiValue>) -> (bytes: Option<Vec<u8>>)
    ensures
        match bytes {
            Some(b) => spans(values_of(tokens@)) <= ENCODING_LIMIT && b@ == abi_encoding(
                values_of(tokens@),
            ),
            None => spans(values_of(tokens@)) > ENCODING_LIMIT,
        },
{
    match footprints(tokens) {
        Some(_) => Some(abi_encode(&outside_tokens(tokens))),
        None => None,
    }
}

/// The tokens that the decoder reads from `data` for the given types. Data
/// may name the same bytes many times over, so that the tokens of nested
/// arrays can take far more room than the data.
pub fn decode(types: &Vec<AbiType>, data: &[u8]) -> (outcome: Result<Vec<AbiValue>, DecodeError>)
    ensures
        outcome_values(outcome) == decoded(kinds_of(types@), data@),
{
    if usize::BITS != 64 || !are_decodable(types) {
        return Err(DecodeError::UnsupportedType);
    }
    match abi_decode(&outside_types(types), data) {
        Some(list) => Ok(inside_tokens(&list)),
        None => Err(DecodeError::InvalidData),
    }
}

/// The four-byte selector of the function with the given name and inputs.
pub fn short_signature(name: &str, inputs: &Vec<AbiType>) -> (selector: [u8; 4])
    ensures
        selector@ == function_selector(name@, kinds_of(inputs@)),
{
    abi_short_signature(name, &outside_types(inputs))
}

} // verus!
