//! Return values of the user-overridable DKIM registry contract.

use crate::abi::{kinds_of, AbiType, AbiValue, Address, Kind, Value, U256};
use crate::codec::{decode, decoded, outcome_values, DecodeError};
use vstd::prelude::*;

verus! {

/// The one value of a list of decoded values.
pub open spec fn single(outcome: Result<Seq<Value>, DecodeError>) -> Result<Value, DecodeError> {
    match outcome {
        Ok(values) => if values.len() == 1 {
            Ok(values[0])
        } else {
            Err(DecodeError::InvalidData)
        },
        Err(e) => Err(e),
    }
}

/// The boolean that return data holds.
pub open spec fn returned_bool(data: Seq<u8>) -> Result<bool, DecodeError> {
    match single(decoded(seq![Kind::Bool], data)) {
        Ok(Value::Bool(b)) => Ok(b),
        Ok(_) => Err(DecodeError::InvalidData),
        Err(e) => Err(e),
    }
}

/// The string that return data holds.
pub open spec fn returned_string(data: Seq<u8>) -> Result<Seq<char>, DecodeError> {
    match single(decoded(seq![Kind::String], data)) {
        Ok(Value::String(s)) => Ok(s),
        Ok(_) => Err(DecodeError::InvalidData),
        Err(e) => Err(e),
    }
}

/// The 256-bit number that return data holds.
pub open spec fn returned_uint(data: Seq<u8>) -> Result<U256, DecodeError> {
    match single(decoded(seq![Kind::Uint(256)], data)) {
        Ok(Value::Uint(v)) => Ok(v),
        Ok(_) => Err(DecodeError::InvalidData),
        Err(e) => Err(e),
    }
}

/// The address that return data holds.
pub open spec fn returned_address(data: Seq<u8>) -> Result<Address, DecodeError> {
    match single(decoded(seq![Kind::Address], data)) {
        Ok(Value::Address(a)) => Ok(a),
        Ok(_) => Err(DecodeError::InvalidData),
        Err(e) => Err(e),
    }
}

/// The 32-byte hash that return data holds.
pub open spec fn returned_hash(data: Seq<u8>) -> Result<Seq<u8>, DecodeError> {
    match single(decoded(seq![Kind::FixedBytes(32)], data)) {
        Ok(Value::FixedBytes(b)) => if b.len() == 32 {
            Ok(b)
        } else {
            Err(DecodeError::InvalidData)
        },
        Ok(_) => Err(DecodeError::InvalidData),
        Err(e) => Err(e),
    }
}

/// The values that return data holds for one output type.
fn decode_single(output: AbiType, data: &[u8]) -> (outcome: Result<Vec<AbiValue>, DecodeError>)
    ensures
        outcome_values(outcome) == decoded(seq![output@], data@),
{
    let mut types: Vec<AbiType> = Vec::new();
    types.push(output);
    assert(kinds_of(types@) =~= seq![output@]);
    decode(&types, data)
}

/// The boolean that return data holds.
pub fn decode_bool(data: &[u8]) -> (outcome: Result<bool, DecodeError>)
    ensures
        outcome == returned_bool(data@),
{
    let list = decode_single(AbiType::Bool, data)?;
    if list.len() != 1 {
        return Err(DecodeError::InvalidData);
    }
    match &list[0] {
        AbiValue::Bool(b) => Ok(*b),
        _ => Err(DecodeError::InvalidData),
    }
}

/// The string that return data holds.
pub fn decode_string(data: &[u8]) -> (outcome: Result<String, DecodeError>)
    ensures
        match returned_string(data@) {
            Ok(value) => outcome is Ok && outcome->Ok_0@ == value,
            Err(e) => outcome is Err && outcome->Err_0 == e,
        },
{
    let list = decode_single(AbiType::String, data)?;
    if list.len() != 1 {
        return Err(DecodeError::InvalidData);
    }
    match &list[0] {
        AbiValue::String(s) => Ok(s.clone()),
        _ => Err(DecodeError::InvalidData),
    }
}

/// The 256-bit number that return data holds.
pub fn decode_uint(data: &[u8]) -> (outcome: Result<U256, DecodeError>)
    ensures
        outcome == returned_uint(data@),
{
    let list = decode_single(AbiType::Uint(256), data)?;
    if list.len() != 1 {
        return Err(DecodeError::InvalidData);
    }
    match &list[0] {
        AbiValue::Uint(v) => Ok(*v),
        _ => Err(DecodeError::InvalidData),
    }
}

/// The address that return data holds.
pub fn decode_address(data: &[u8]) -> (outcome: Result<Address, DecodeError>)
    ensures
        outcome == returned_address(data@),
{
    let list = decode_single(AbiType::Address, data)?;
    if list.len() != 1 {
        return Err(DecodeError::InvalidData);
    }
    match &list[0] {
        AbiValue::Address(a) => Ok(*a),
        _ => Err(DecodeError::InvalidData),
    }
}

/// The 32-byte hash that return data holds.
pub fn decode_hash(data: &[u8]) -> (outcome: Result<[u8; 32], DecodeError>)
    ensures
        match returned_hash(data@) {
            Ok(value) => outcome is Ok && outcome->Ok_0@ == value,
            Err(e) => outcome is Err && outcome->Err_0 == e,
        },
{
    let list = decode_single(AbiType::FixedBytes(32), data)?;
    if list.len() != 1 {
        return Err(DecodeError::InvalidData);
    }
    match &list[0] {
        AbiValue::FixedBytes(b) => {
            if b.len() != 32 {
                return Err(DecodeError::InvalidData);
            }
            let mut hash: [u8; 32] = [0u8; 32];
            let mut i: usize = 0;
            while i < 32
                invariant
                    i <= 32,
                    b@.len() == 32,
                    forall|j: int| 0 <= j < i ==> hash@[j] == b@[j],
                decreases 32 - i,
            {
                hash[i] = b[i];
                i += 1;
            }
            assert(hash@ =~= b@);
            Ok(hash)
        },
        _ => Err(DecodeError::InvalidData),
    }
}

/// What the contract's `REACTIVATE_PREFIX()` function returns.
#[derive(Clone, Debug, PartialEq, Eq)]
pub struct ReactivatePrefixReturn(pub String);

impl ReactivatePrefixReturn {
    /// The value that return data of the function holds.
    pub fn decode(data: &[u8]) -> (outcome: Result<Self, DecodeError>)
        ensures
            match returned_string(data@) {
                Ok(value) => outcome is Ok && outcome->Ok_0.0@ == value,
                Err(e) => outcome is Err && outcome->Err_0 == e,
            },
    {
        match decode_string(data) {
            Ok(value) => Ok(ReactivatePrefixReturn(value)),
            Err(e) => Err(e),
        }
    }
}

/// What the contract's `REVOKE_PREFIX()` function returns.
#[derive(Clone, Debug, PartialEq, Eq)]
pub struct RevokePrefixReturn(pub String);

impl RevokePrefixReturn {
    /// The value that return data of the function holds.
    pub fn decode(data: &[u8]) -> (outcome: Result<Self, DecodeError>)
        ensures
            match returned_string(data@) {
                Ok(value) => outcome is Ok && outcome->Ok_0.0@ == value,
                Err(e) => outcome is Err && outcome->Err_0 == e,
            },
    {
        match decode_string(data) {
            Ok(value) => Ok(RevokePrefixReturn(value)),
            Err(e) => Err(e),
        }
    }
}

/// What the contract's `SET_PREFIX()` function returns.
#[derive(Clone, Debug, PartialEq, Eq)]
pub struct SetPrefixReturn(pub String);

impl SetPrefixReturn {
    /// The value that return data of the function holds.
    pub fn decode(data: &[u8]) -> (outcome: Result<Self, DecodeError>)
        ensures
            match returned_string(data@) {
                Ok(value) => outcome is Ok && outcome->Ok_0.0@ == value,
                Err(e) => outcome is Err && outcome->Err_0 == e,
            },
    {
        match decode_string(data) {
            Ok(value) => Ok(SetPrefixReturn(value)),
            Err(e) => Err(e),
        }
    }
}

/// What the contract's `UPGRADE_INTERFACE_VERSION()` function returns.
#[derive(Clone, Debug, PartialEq, Eq)]
pub struct UpgradeInterfaceVersionReturn(pub String);

impl UpgradeInterfaceVersionReturn {
    /// The value that return data of the function holds.
    pub fn decode(data: &[u8]) -> (outcome: Result<Self, DecodeError>)
        ensures
            match returned_string(data@) {
                Ok(value) => outcome is Ok && outcome->Ok_0.0@ == value,
                Err(e) => outcome is Err && outcome->Err_0 == e,
            },
    {
        match decode_string(data) {
            Ok(value) => Ok(UpgradeInterfaceVersionReturn(value)),
            Err(e) => Err(e),
        }
    }
}

/// What the contract's `computeSignedMsg(string,string,bytes32)` function returns.
#[derive(Clone, Debug, PartialEq, Eq)]
pub struct ComputeSignedMsgReturn(pub String);

impl ComputeSignedMsgReturn {
    /// The value that return data of the function holds.
    pub fn decode(data: &[u8]) -> (outcome: Result<Self, DecodeError>)
        ensures
            match returned_string(data@) {
                Ok(value) => outcome is Ok && outcome->Ok_0.0@ == value,
                Err(e) => outcome is Err && outcome->Err_0 == e,
            },
    {
        match decode_string(data) {
            Ok(value) => Ok(ComputeSignedMsgReturn(value)),
            Err(e) => Err(e),
        }
    }
}

/// What the contract's `dkimPublicKeyHashes(string,bytes32,address)` function returns.
#[derive(Clone, Debug, PartialEq, Eq)]
pub struct DkimPublicKeyHashesReturn(pub bool);

impl DkimPublicKeyHashesReturn {
    /// The value that return data of the function holds.
    pub fn decode(data: &[u8]) -> (outcome: Result<Self, DecodeError>)
        ensures
            match returned_bool(data@) {
                Ok(value) => outcome is Ok && outcome->Ok_0.0 == value,
                Err(e) => outcome is Err && outcome->Err_0 == e,
            },
    {
        match decode_bool(data) {
            Ok(value) => Ok(DkimPublicKeyHashesReturn(value)),
            Err(e) => Err(e),
        }
    }
}

/// What the contract's `enabledTimeOfDKIMPublicKeyHash(bytes32)` function returns.
#[derive(Clone, Debug, PartialEq, Eq)]
pub struct EnabledTimeOfDKIMPublicKeyHashReturn(pub U256);

impl EnabledTimeOfDKIMPublicKeyHashReturn {
    /// The value that return data of the function holds.
    pub fn decode(data: &[u8]) -> (outcome: Result<Self, DecodeError>)
        ensures
            match returned_uint(data@) {
                Ok(value) => outcome is Ok && outcome->Ok_0.0 == value,
                Err(e) => outcome is Err && outcome->Err_0 == e,
            },
    {
        match decode_uint(data) {
            Ok(value) => Ok(EnabledTimeOfDKIMPublicKeyHashReturn(value)),
            Err(e) => Err(e),
        }
    }
}

/// What the contract's `isDKIMPublicKeyHashValid(string,bytes32,address)` function returns.
#[derive(Clone, Debug, PartialEq, Eq)]
pub struct IsDkimPublicKeyHashValidWithDomainNameAndPublicKeyHashReturn(pub bool);

impl IsDkimPublicKeyHashValidWithDomainNameAndPublicKeyHashReturn {
    /// The value that return data of the function holds.
    pub fn decode(data: &[u8]) -> (outcome: Result<Self, DecodeError>)
        ensures
            match returned_bool(data@) {
                Ok(value) => outcome is Ok && outcome->Ok_0.0 == value,
                Err(e) => outcome is Err && outcome->Err_0 == e,
            },
    {
        match decode_bool(data) {
            Ok(value) => Ok(IsDkimPublicKeyHashValidWithDomainNameAndPublicKeyHashReturn(value)),
            Err(e) => Err(e),
        }
    }
}

/// What the contract's `isDKIMPublicKeyHashValid(string,bytes32)` function returns.
#[derive(Clone, Debug, PartialEq, Eq)]
pub struct IsDKIMPublicKeyHashValidReturn(pub bool);

impl IsDKIMPublicKeyHashValidReturn {
    /// The value that return data of the function holds.
    pub fn decode(data: &[u8]) -> (outcome: Result<Self, DecodeError>)
        ensures
            match returned_bool(data@) {
                Ok(value) => outcome is Ok && outcome->Ok_0.0 == value,
                Err(e) => outcome is Err && outcome->Err_0 == e,
            },
    {
        match decode_bool(data) {
            Ok(value) => Ok(IsDKIMPublicKeyHashValidReturn(value)),
            Err(e) => Err(e),
        }
    }
}

/// What the contract's `mainAuthorizer()` function returns.
#[derive(Clone, Debug, PartialEq, Eq)]
pub struct MainAuthorizerReturn(pub Address);

impl MainAuthorizerReturn {
    /// The value that return data of the function holds.
    pub fn decode(data: &[u8]) -> (outcome: Result<Self, DecodeError>)
        ensures
            match returned_address(data@) {
                Ok(value) => outcome is Ok && outcome->Ok_0.0 == value,
                Err(e) => outcome is Err && outcome->Err_0 == e,
            },
    {
        match decode_address(data) {
            Ok(value) => Ok(MainAuthorizerReturn(value)),
            Err(e) => Err(e),
        }
    }
}

/// What the contract's `owner()` function returns.
#[derive(Clone, Debug, PartialEq, Eq)]
pub struct OwnerReturn(pub Address);

impl OwnerReturn {
    /// The value that return data of the function holds.
    pub fn decode(data: &[u8]) -> (outcome: Result<Self, DecodeError>)
        ensures
            match returned_address(data@) {
                Ok(value) => outcome is Ok && outcome->Ok_0.0 == value,
                Err(e) => outcome is Err && outcome->Err_0 == e,
            },
    {
        match decode_address(data) {
            Ok(value) => Ok(OwnerReturn(value)),
            Err(e) => Err(e),
        }
    }
}

/// What the contract's `proxiableUUID()` function returns.
#[derive(Clone, Debug, PartialEq, Eq)]
pub struct ProxiableUUIDReturn(pub [u8; 32]);

impl ProxiableUUIDReturn {
    /// The value that return data of the function holds.
    pub fn decode(data: &[u8]) -> (outcome: Result<Self, DecodeError>)
        ensures
            match returned_hash(data@) {
                Ok(value) => outcome is Ok && outcome->Ok_0.0@ == value,
                Err(e) => outcome is Err && outcome->Err_0 == e,
            },
    {
        match decode_hash(data) {
            Ok(value) => Ok(ProxiableUUIDReturn(value)),
            Err(e) => Err(e),
        }
    }
}

/// What the contract's `reactivatedDKIMPublicKeyHashes(bytes32,address)` function returns.
#[derive(Clone, Debug, PartialEq, Eq)]
pub struct ReactivatedDKIMPublicKeyHashesReturn(pub bool);

impl ReactivatedDKIMPublicKeyHashesReturn {
    /// The value that return data of the function holds.
    pub fn decode(data: &[u8]) -> (outcome: Result<Self, DecodeError>)
        ensures
            match returned_bool(data@) {
                Ok(value) => outcome is Ok && outcome->Ok_0.0 == value,
                Err(e) => outcome is Err && outcome->Err_0 == e,
            },
    {
        match decode_bool(data) {
            Ok(value) => Ok(ReactivatedDKIMPublicKeyHashesReturn(value)),
            Err(e) => Err(e),
        }
    }
}

/// What the contract's `revokedDKIMPublicKeyHashes(bytes32,address)` function returns.
#[derive(Clone, Debug, PartialEq, Eq)]
pub struct RevokedDKIMPublicKeyHashesReturn(pub bool);

impl RevokedDKIMPublicKeyHashesReturn {
    /// The value that return data of the function holds.
    pub fn decode(data: &[u8]) -> (outcome: Result<Self, DecodeError>)
        ensures
            match returned_bool(data@) {
                Ok(value) => outcome is Ok && outcome->Ok_0.0 == value,
                Err(e) => outcome is Err && outcome->Err_0 == e,
            },
    {
        match decode_bool(data) {
            Ok(value) => Ok(RevokedDKIMPublicKeyHashesReturn(value)),
            Err(e) => Err(e),
        }
    }
}

/// What the contract's `setTimestampDelay()` function returns.
#[derive(Clone, Debug, PartialEq, Eq)]
pub struct SetTimestampDelayReturn(pub U256);

impl SetTimestampDelayReturn {
    /// The value that return data of the function holds.
    pub fn decode(data: &[u8]) -> (outcome: Result<Self, DecodeError>)
        ensures
            match returned_uint(data@) {
                Ok(value) => outcome is Ok && outcome->Ok_0.0 == value,
                Err(e) => outcome is Err && outcome->Err_0 == e,
            },
    {
        match decode_uint(data) {
            Ok(value) => Ok(SetTimestampDelayReturn(value)),
            Err(e) => Err(e),
        }
    }
}

} // verus!
