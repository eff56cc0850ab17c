//! The descriptor of one contract function, and the call data made from it.

use crate::abi::{
    all_conform, kinds_of, spans, types_check, values_of, AbiType, AbiValue, Kind, Value,
    ENCODING_LIMIT,
};
use crate::codec::{
    abi_encoding, decode, decoded, encode, function_selector, outcome_values, short_signature,
    DecodeError,
};
use vstd::prelude::*;
use vstd::slice::slice_subrange;

verus! {

/// The interface of one function: its name and the types of its inputs and
/// outputs, in order.
#[derive(Debug)]
pub struct Function {
    pub name: String,
    pub inputs: Vec<AbiType>,
    pub outputs: Vec<AbiType>,
}

/// Why a call could not be built.
#[derive(Clone, Copy, Debug, PartialEq, Eq, Structural)]
pub enum CallError {
    /// The number of arguments is not the number of declared parameters.
    ArityMismatch,
    /// An argument does not fit its declared type, or the arguments are too
    /// large to encode.
    EncodingError,
}

/// The bytes of an outcome that holds bytes.
pub open spec fn outcome_bytes<E>(outcome: Result<Vec<u8>, E>) -> Result<Seq<u8>, E> {
    match outcome {
        Ok(bytes) => Ok(bytes@),
        Err(e) => Err(e),
    }
}

/// A selector followed by encoded arguments.
pub fn frame_call(selector: &[u8; 4], encoded: &Vec<u8>) -> (data: Vec<u8>)
    ensures
        data@ == selector@ + encoded@,
{
    let mut data: Vec<u8> = Vec::new();
    let mut i: usize = 0;
    while i < 4
        invariant
            i <= 4,
            data@ == selector@.take(i as int),
        decreases 4 - i,
    {
        data.push(selector[i]);
        assert(selector@.take(i + 1) =~= selector@.take(i as int).push(selector@[i as int]));
        i += 1;
    }
    assert(selector@.take(4) =~= selector@);
    let mut j: usize = 0;
    while j < encoded.len()
        invariant
            j <= encoded@.len(),
            data@ == selector@ + encoded@.take(j as int),
        decreases encoded@.len() - j,
    {
        data.push(encoded[j]);
        assert(encoded@.take(j + 1) =~= encoded@.take(j as int).push(encoded@[j as int]));
        assert(selector@ + encoded@.take(j + 1) =~= (selector@ + encoded@.take(j as int)).push(
            encoded@[j as int],
        ));
        j += 1;
    }
    assert(encoded@.take(encoded@.len() as int) =~= encoded@);
    data
}

/// Whether `data` starts with the four bytes of `selector`.
pub fn starts_with_selector(data: &[u8], selector: &[u8; 4]) -> (ok: bool)
    ensures
        ok == (data@.len() >= 4 && data@.take(4) == selector@),
{
    if data.len() < 4 {
        return false;
    }
    let mut i: usize = 0;
    while i < 4
        invariant
            i <= 4,
            data@.len() >= 4,
            data@.take(i as int) == selector@.take(i as int),
        decreases 4 - i,
    {
        if data[i] != selector[i] {
            assert(data@.take(4)[i as int] != selector@[i as int]);
            return false;
        }
        assert(data@.take(i + 1) =~= data@.take(i as int).push(data@[i as int]));
        assert(selector@.take(i + 1) =~= selector@.take(i as int).push(selector@[i as int]));
        i += 1;
    }
    assert(selector@.take(4) =~= selector@);
    true
}

/// The call data of the function with the given name and inputs for the given
/// argument values, or why there is none: the arity is tested first, then the
/// types and the size.
pub open spec fn call_data(name: Seq<char>, inputs: Seq<Kind>, values: Seq<Value>) -> Result<
    Seq<u8>,
    CallError,
> {
    if values.len() != inputs.len() {
        Err(CallError::ArityMismatch)
    } else if !all_conform(values, inputs) || spans(values) > ENCODING_LIMIT {
        Err(CallError::EncodingError)
    } else {
        Ok(function_selector(name, inputs) + abi_encoding(values))
    }
}

impl Function {
    /// The selector that the function's name and input types give.
    pub open spec fn spec_selector(&self) -> Seq<u8> {
        function_selector(self.name@, kinds_of(self.inputs@))
    }

    /// The call data for the given argument values, or why there is none.
    pub open spec fn call_outcome(&self, values: Seq<Value>) -> Result<Seq<u8>, CallError> {
        call_data(self.name@, kinds_of(self.inputs@), values)
    }

    /// What decoding call data for this function gives.
    pub open spec fn input_outcome(&self, data: Seq<u8>) -> Result<Seq<Value>, DecodeError> {
        if data.len() < 4 || data.take(4) != self.spec_selector() {
            Err(DecodeError::WrongSelector)
        } else {
            decoded(kinds_of(self.inputs@), data.skip(4))
        }
    }

    /// The four-byte selector of this function.
    pub fn selector(&self) -> (selector: [u8; 4])
        ensures
            selector@ == self.spec_selector(),
    {
        short_signature(self.name.as_str(), &self.inputs)
    }

    /// The call data that invokes this function with the given arguments.
    pub fn encode_input(&self, tokens: &Vec<AbiValue>) -> (outcome: Result<Vec<u8>, CallError>)
        ensures
            outcome_bytes(outcome) == self.call_outcome(values_of(tokens@)),
    {
        if tokens.len() != self.inputs.len() {
            return Err(CallError::ArityMismatch);
        }
        if !types_check(tokens, &self.inputs) {
            return Err(CallError::EncodingError);
        }
        match encode(tokens) {
            Some(encoded) => {
                let selector = self.selector();
                Ok(frame_call(&selector, &encoded))
            },
            None => Err(CallError::EncodingError),
        }
    }

    /// The arguments that call data for this function holds.
    pub fn decode_input(&self, data: &[u8]) -> (outcome: Result<Vec<AbiValue>, DecodeError>)
        ensures
            outcome_values(outcome) == self.input_outcome(data@),
    {
        let selector = self.selector();
        if !starts_with_selector(data, &selector) {
            return Err(DecodeError::WrongSelector);
        }
        let rest = slice_subrange(data, 4, data.len());
        assert(rest@ =~= data@.skip(4));
        decode(&self.inputs, rest)
    }

    /// The values that return data of this function holds.
    pub fn decode_output(&self, data: &[u8]) -> (outcome: Result<Vec<AbiValue>, DecodeError>)
        ensures
            outcome_values(outcome) == decoded(kinds_of(self.outputs@), data@),
    {
        decode(&self.outputs, data)
    }
}

} // verus!
