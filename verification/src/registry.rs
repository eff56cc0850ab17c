//! Calls and event filters of the user-overridable DKIM registry contract.

use crate::abi::{lemma_spans_of_words, span, values_of, AbiValue, Address, Value, U256};
use crate::call::{method_call, outcome_transaction, TransactionRequest};
use crate::codec::{abi_encoding, encode, keccak256, keccak256_digest};
use crate::function::{frame_call, CallError};
use vstd::pervasive::unreached;
use vstd::prelude::*;

verus! {

/// The registry contract at one address.
#[derive(Clone, Copy, Debug, PartialEq, Eq)]
pub struct UserOverridableDKIMRegistry {
    pub address: Address,
}

/// Which logs of a chain to look at: those of one contract, those with one
/// first topic, both, or all.
#[derive(Clone, Copy, Debug, PartialEq, Eq)]
pub struct EventFilter {
    pub address: Option<Address>,
    pub topic0: Option<[u8; 32]>,
}

/// The filter for the event with the given signature, whatever contract
/// emits it: its first topic is the Keccak-256 digest of the signature.
pub open spec fn event_filter(signature: Seq<char>, filter: EventFilter) -> bool {
    &&& filter.address is None
    &&& filter.topic0 is Some
    &&& filter.topic0->Some_0@ == keccak256_digest(vstd::utf8::encode_utf8(signature))
}

/// A list of strings as one array value.
pub open spec fn string_list(items: Seq<String>) -> Value {
    Value::Array(Seq::new(items.len(), |i: int| Value::String(items[i]@)))
}

/// A list of hashes as one array value.
pub open spec fn hash_list(items: Seq<[u8; 32]>) -> Value {
    Value::Array(Seq::new(items.len(), |i: int| Value::FixedBytes(items[i]@)))
}

/// A list of addresses as one array value.
pub open spec fn address_list(items: Seq<Address>) -> Value {
    Value::Array(Seq::new(items.len(), |i: int| Value::Address(items[i])))
}

/// A list of byte strings as one array value.
pub open spec fn bytes_list(items: Seq<Vec<u8>>) -> Value {
    Value::Array(Seq::new(items.len(), |i: int| Value::Bytes(items[i]@)))
}

/// A list of strings as one array token.
pub fn strings_token(items: &Vec<String>) -> (token: AbiValue)
    ensures
        token@ == string_list(items@),
{
    let mut tokens: Vec<AbiValue> = Vec::new();
    let mut i: usize = 0;
    while i < items.len()
        invariant
            i <= items@.len(),
            tokens@.len() == i,
            forall|j: int| 0 <= j < i ==> (#[trigger] tokens@[j])@ == Value::String(items@[j]@),
        decreases items@.len() - i,
    {
        tokens.push(AbiValue::String(items[i].clone()));
        i += 1;
    }
    assert(values_of(tokens@) =~= string_list(items@)->Array_0);
    AbiValue::Array(tokens)
}

/// A list of hashes as one array token.
pub fn hashes_token(items: &Vec<[u8; 32]>) -> (token: AbiValue)
    ensures
        token@ == hash_list(items@),
{
    let mut tokens: Vec<AbiValue> = Vec::new();
    let mut i: usize = 0;
    while i < items.len()
        invariant
            i <= items@.len(),
            tokens@.len() == i,
            forall|j: int|
                0 <= j < i ==> (#[trigger] tokens@[j])@ == Value::FixedBytes(items@[j]@),
        decreases items@.len() - i,
    {
        tokens.push(AbiValue::bytes32(&items[i]));
        i += 1;
    }
    assert(values_of(tokens@) =~= hash_list(items@)->Array_0);
    AbiValue::Array(tokens)
}

/// A list of addresses as one array token.
pub fn addresses_token(items: &Vec<Address>) -> (token: AbiValue)
    ensures
        token@ == address_list(items@),
{
    let mut tokens: Vec<AbiValue> = Vec::new();
    let mut i: usize = 0;
    while i < items.len()
        invariant
            i <= items@.len(),
            tokens@.len() == i,
            forall|j: int| 0 <= j < i ==> (#[trigger] tokens@[j])@ == Value::Address(items@[j]),
        decreases items@.len() - i,
    {
        tokens.push(AbiValue::Address(items[i]));
        i += 1;
    }
    assert(values_of(tokens@) =~= address_list(items@)->Array_0);
    AbiValue::Array(tokens)
}

/// A list of byte strings as one array token.
pub fn bytes_list_token(items: &Vec<Vec<u8>>) -> (token: AbiValue)
    ensures
        token@ == bytes_list(items@),
{
    let mut tokens: Vec<AbiValue> = Vec::new();
    let mut i: usize = 0;
    while i < items.len()
        invariant
            i <= items@.len(),
            tokens@.len() == i,
            forall|j: int| 0 <= j < i ==> (#[trigger] tokens@[j])@ == Value::Bytes(items@[j]@),
        decreases items@.len() - i,
    {
        tokens.push(AbiValue::Bytes(items[i].clone()));
        i += 1;
    }
    assert(values_of(tokens@) =~= bytes_list(items@)->Array_0);
    AbiValue::Array(tokens)
}

impl UserOverridableDKIMRegistry {
    /// The registry at `address`.
    pub fn new(address: Address) -> (registry: Self)
        ensures
            registry.address == address,
    {
        UserOverridableDKIMRegistry { address }
    }

    /// The call of the function with the given selector on the arguments.
    pub fn method_hash(&self, selector: [u8; 4], args: &Vec<AbiValue>) -> (call: Result<
        TransactionRequest,
        CallError,
    >)
        ensures
            outcome_transaction(call) == method_call(self.address, selector@, values_of(args@)),
    {
        match encode(args) {
            Some(encoded) => Ok(
                TransactionRequest { to: self.address, data: frame_call(&selector, &encoded) },
            ),
            None => Err(CallError::EncodingError),
        }
    }

    /// The call of the function with the given selector on a few arguments
    /// that take one word each.
    fn method_of_words(&self, selector: [u8; 4], args: &Vec<AbiValue>) -> (call:
        TransactionRequest)
        requires
            args@.len() <= 8,
            forall|i: int| 0 <= i < args@.len() ==> span(#[trigger] values_of(args@)[i]) == 32,
        ensures
            call.to == self.address,
            call.data@ == selector@ + abi_encoding(values_of(args@)),
    {
        proof {
            lemma_spans_of_words(values_of(args@));
        }
        match encode(args) {
            Some(encoded) => TransactionRequest {
                to: self.address,
                data: frame_call(&selector, &encoded),
            },
            None => unreached(),
        }
    }

    /// Calls the contract's `REACTIVATE_PREFIX()` function.
    pub fn reactivate_prefix(&self) -> (call: TransactionRequest)
        ensures
            call.to == self.address,
            call.data@ == seq![34u8, 90, 8, 212] + abi_encoding(Seq::<Value>::empty()),
    {
        let args: Vec<AbiValue> = Vec::new();
        assert(values_of(args@) =~= Seq::<Value>::empty());
        let selector: [u8; 4] = [34, 90, 8, 212];
        assert(selector@ =~= seq![34u8, 90, 8, 212]);
        self.method_of_words(selector, &args)
    }

    /// Calls the contract's `REVOKE_PREFIX()` function.
    pub fn revoke_prefix(&self) -> (call: TransactionRequest)
        ensures
            call.to == self.address,
            call.data@ == seq![213u8, 7, 195, 32] + abi_encoding(Seq::<Value>::empty()),
    {
        let args: Vec<AbiValue> = Vec::new();
        assert(values_of(args@) =~= Seq::<Value>::empty());
        let selector: [u8; 4] = [213, 7, 195, 32];
        assert(selector@ =~= seq![213u8, 7, 195, 32]);
        self.method_of_words(selector, &args)
    }

    /// Calls the contract's `SET_PREFIX()` function.
    pub fn set_prefix(&self) -> (call: TransactionRequest)
        ensures
            call.to == self.address,
            call.data@ == seq![7u8, 241, 234, 245] + abi_encoding(Seq::<Value>::empty()),
    {
        let args: Vec<AbiValue> = Vec::new();
        assert(values_of(args@) =~= Seq::<Value>::empty());
        let selector: [u8; 4] = [7, 241, 234, 245];
        assert(selector@ =~= seq![7u8, 241, 234, 245]);
        self.method_of_words(selector, &args)
    }

    /// Calls the contract's `UPGRADE_INTERFACE_VERSION()` function.
    pub fn upgrade_interface_version(&self) -> (call: TransactionRequest)
        ensures
            call.to == self.address,
            call.data@ == seq![173u8, 60, 177, 204] + abi_encoding(Seq::<Value>::empty()),
    {
        let args: Vec<AbiValue> = Vec::new();
        assert(values_of(args@) =~= Seq::<Value>::empty());
        let selector: [u8; 4] = [173, 60, 177, 204];
        assert(selector@ =~= seq![173u8, 60, 177, 204]);
        self.method_of_words(selector, &args)
    }

    /// Calls the contract's `changeMainAuthorizer(address)` function.
    pub fn change_main_authorizer(
        &self,
        new_main_authorizer: Address,
    ) -> (call: TransactionRequest)
        ensures
            call.to == self.address,
            call.data@ == seq![76u8, 147, 6, 7] + abi_encoding(
                seq![
                    Value::Address(new_main_authorizer),
                ],
            ),
    {
        let ghost values = seq![
            Value::Address(new_main_authorizer),
        ];
        let mut args: Vec<AbiValue> = Vec::new();
        args.push(AbiValue::Address(new_main_authorizer));
        assert(values_of(args@) =~= values);
        let selector: [u8; 4] = [76, 147, 6, 7];
        assert(selector@ =~= seq![76u8, 147, 6, 7]);
        self.method_of_words(selector, &args)
    }

    /// Calls the contract's `computeSignedMsg(string,string,bytes32)` function.
    pub fn compute_signed_msg(
        &self,
        prefix: String,
        domain_name: String,
        public_key_hash: [u8; 32],
    ) -> (call: Result<TransactionRequest, CallError>)
        ensures
            outcome_transaction(call) == method_call(
                self.address,
                seq![75u8, 203, 190, 150],
                seq![
                    Value::String(prefix@),
                    Value::String(domain_name@),
                    Value::FixedBytes(public_key_hash@),
                ],
            ),
    {
        let ghost values = seq![
            Value::String(prefix@),
            Value::String(domain_name@),
            Value::FixedBytes(public_key_hash@),
        ];
        let mut args: Vec<AbiValue> = Vec::new();
        args.push(AbiValue::String(prefix));
        args.push(AbiValue::String(domain_name));
        args.push(AbiValue::bytes32(&public_key_hash));
        assert(values_of(args@) =~= values);
        let selector: [u8; 4] = [75, 203, 190, 150];
        assert(selector@ =~= seq![75u8, 203, 190, 150]);
        self.method_hash(selector, &args)
    }

    /// Calls the contract's `dkimPublicKeyHashes(string,bytes32,address)` function.
    pub fn dkim_public_key_hashes(
        &self,
        domain_name: String,
        public_key_hash: [u8; 32],
        authorizer: Address,
    ) -> (call: Result<TransactionRequest, CallError>)
        ensures
            outcome_transaction(call) == method_call(
                self.address,
                seq![227u8, 8, 222, 12],
                seq![
                    Value::String(domain_name@),
                    Value::FixedBytes(public_key_hash@),
                    Value::Address(authorizer),
                ],
            ),
    {
        let ghost values = seq![
            Value::String(domain_name@),
            Value::FixedBytes(public_key_hash@),
            Value::Address(authorizer),
        ];
        let mut args: Vec<AbiValue> = Vec::new();
        args.push(AbiValue::String(domain_name));
        args.push(AbiValue::bytes32(&public_key_hash));
        args.push(AbiValue::Address(authorizer));
        assert(values_of(args@) =~= values);
        let selector: [u8; 4] = [227, 8, 222, 12];
        assert(selector@ =~= seq![227u8, 8, 222, 12]);
        self.method_hash(selector, &args)
    }

    /// Calls the contract's `enabledTimeOfDKIMPublicKeyHash(bytes32)` function.
    pub fn enabled_time_of_dkim_public_key_hash(
        &self,
        public_key_hash: [u8; 32],
    ) -> (call: TransactionRequest)
        ensures
            call.to == self.address,
            call.data@ == seq![127u8, 142, 41, 186] + abi_encoding(
                seq![
                    Value::FixedBytes(public_key_hash@),
                ],
            ),
    {
        let ghost values = seq![
            Value::FixedBytes(public_key_hash@),
        ];
        let mut args: Vec<AbiValue> = Vec::new();
        args.push(AbiValue::bytes32(&public_key_hash));
        assert(values_of(args@) =~= values);
        let selector: [u8; 4] = [127, 142, 41, 186];
        assert(selector@ =~= seq![127u8, 142, 41, 186]);
        self.method_of_words(selector, &args)
    }

    /// Calls the contract's `initialize(address,address,uint256)` function.
    pub fn initialize(
        &self,
        initial_owner: Address,
        main_authorizer: Address,
        set_timestamp_delay: U256,
    ) -> (call: TransactionRequest)
        ensures
            call.to == self.address,
            call.data@ == seq![23u8, 148, 187, 60] + abi_encoding(
                seq![
                    Value::Address(initial_owner),
                    Value::Address(main_authorizer),
                    Value::Uint(set_timestamp_delay),
                ],
            ),
    {
        let ghost values = seq![
            Value::Address(initial_owner),
            Value::Address(main_authorizer),
            Value::Uint(set_timestamp_delay),
        ];
        let mut args: Vec<AbiValue> = Vec::new();
        args.push(AbiValue::Address(initial_owner));
        args.push(AbiValue::Address(main_authorizer));
        args.push(AbiValue::Uint(set_timestamp_delay));
        assert(values_of(args@) =~= values);
        let selector: [u8; 4] = [23, 148, 187, 60];
        assert(selector@ =~= seq![23u8, 148, 187, 60]);
        self.method_of_words(selector, &args)
    }

    /// Calls the contract's `isDKIMPublicKeyHashValid(string,bytes32,address)` function.
    pub fn is_dkim_public_key_hash_valid_with_domain_name_and_public_key_hash(
        &self,
        domain_name: String,
        public_key_hash: [u8; 32],
        authorizer: Address,
    ) -> (call: Result<TransactionRequest, CallError>)
        ensures
            outcome_transaction(call) == method_call(
                self.address,
                seq![11u8, 85, 179, 124],
                seq![
                    Value::String(domain_name@),
                    Value::FixedBytes(public_key_hash@),
                    Value::Address(authorizer),
                ],
            ),
    {
        let ghost values = seq![
            Value::String(domain_name@),
            Value::FixedBytes(public_key_hash@),
            Value::Address(authorizer),
        ];
        let mut args: Vec<AbiValue> = Vec::new();
        args.push(AbiValue::String(domain_name));
        args.push(AbiValue::bytes32(&public_key_hash));
        args.push(AbiValue::Address(authorizer));
        assert(values_of(args@) =~= values);
        let selector: [u8; 4] = [11, 85, 179, 124];
        assert(selector@ =~= seq![11u8, 85, 179, 124]);
        self.method_hash(selector, &args)
    }

    /// Calls the contract's `isDKIMPublicKeyHashValid(string,bytes32)` function.
    pub fn is_dkim_public_key_hash_valid(
        &self,
        domain_name: String,
        public_key_hash: [u8; 32],
    ) -> (call: Result<TransactionRequest, CallError>)
        ensures
            outcome_transaction(call) == method_call(
                self.address,
                seq![231u8, 167, 151, 122],
                seq![
                    Value::String(domain_name@),
                    Value::FixedBytes(public_key_hash@),
                ],
            ),
    {
        let ghost values = seq![
            Value::String(domain_name@),
            Value::FixedBytes(public_key_hash@),
        ];
        let mut args: Vec<AbiValue> = Vec::new();
        args.push(AbiValue::String(domain_name));
        args.push(AbiValue::bytes32(&public_key_hash));
        assert(values_of(args@) =~= values);
        let selector: [u8; 4] = [231, 167, 151, 122];
        assert(selector@ =~= seq![231u8, 167, 151, 122]);
        self.method_hash(selector, &args)
    }

    /// Calls the contract's `mainAuthorizer()` function.
    pub fn main_authorizer(&self) -> (call: TransactionRequest)
        ensures
            call.to == self.address,
            call.data@ == seq![125u8, 70, 54, 72] + abi_encoding(Seq::<Value>::empty()),
    {
        let args: Vec<AbiValue> = Vec::new();
        assert(values_of(args@) =~= Seq::<Value>::empty());
        let selector: [u8; 4] = [125, 70, 54, 72];
        assert(selector@ =~= seq![125u8, 70, 54, 72]);
        self.method_of_words(selector, &args)
    }

    /// Calls the contract's `owner()` function.
    pub fn owner(&self) -> (call: TransactionRequest)
        ensures
            call.to == self.address,
            call.data@ == seq![141u8, 165, 203, 91] + abi_encoding(Seq::<Value>::empty()),
    {
        let args: Vec<AbiValue> = Vec::new();
        assert(values_of(args@) =~= Seq::<Value>::empty());
        let selector: [u8; 4] = [141, 165, 203, 91];
        assert(selector@ =~= seq![141u8, 165, 203, 91]);
        self.method_of_words(selector, &args)
    }

    /// Calls the contract's `proxiableUUID()` function.
    pub fn proxiable_uuid(&self) -> (call: TransactionRequest)
        ensures
            call.to == self.address,
            call.data@ == seq![82u8, 209, 144, 45] + abi_encoding(Seq::<Value>::empty()),
    {
        let args: Vec<AbiValue> = Vec::new();
        assert(values_of(args@) =~= Seq::<Value>::empty());
        let selector: [u8; 4] = [82, 209, 144, 45];
        assert(selector@ =~= seq![82u8, 209, 144, 45]);
        self.method_of_words(selector, &args)
    }

    /// Calls the contract's `reactivateDKIMPublicKeyHash(string,bytes32,address,bytes)` function.
    pub fn reactivate_dkim_public_key_hash(
        &self,
        domain_name: String,
        public_key_hash: [u8; 32],
        authorizer: Address,
        signature: Vec<u8>,
    ) -> (call: Result<TransactionRequest, CallError>)
        ensures
            outcome_transaction(call) == method_call(
                self.address,
                seq![50u8, 225, 225, 148],
                seq![
                    Value::String(domain_name@),
                    Value::FixedBytes(public_key_hash@),
                    Value::Address(authorizer),
                    Value::Bytes(signature@),
                ],
            ),
    {
        let ghost values = seq![
            Value::String(domain_name@),
            Value::FixedBytes(public_key_hash@),
            Value::Address(authorizer),
            Value::Bytes(signature@),
        ];
        let mut args: Vec<AbiValue> = Vec::new();
        args.push(AbiValue::String(domain_name));
        args.push(AbiValue::bytes32(&public_key_hash));
        args.push(AbiValue::Address(authorizer));
        args.push(AbiValue::Bytes(signature));
        assert(values_of(args@) =~= values);
        let selector: [u8; 4] = [50, 225, 225, 148];
        assert(selector@ =~= seq![50u8, 225, 225, 148]);
        self.method_hash(selector, &args)
    }

    /// Calls the contract's `reactivatedDKIMPublicKeyHashes(bytes32,address)` function.
    pub fn reactivated_dkim_public_key_hashes(
        &self,
        public_key_hash: [u8; 32],
        authorizer: Address,
    ) -> (call: TransactionRequest)
        ensures
            call.to == self.address,
            call.data@ == seq![87u8, 73, 0, 221] + abi_encoding(
                seq![
                    Value::FixedBytes(public_key_hash@),
                    Value::Address(authorizer),
                ],
            ),
    {
        let ghost values = seq![
            Value::FixedBytes(public_key_hash@),
            Value::Address(authorizer),
        ];
        let mut args: Vec<AbiValue> = Vec::new();
        args.push(AbiValue::bytes32(&public_key_hash));
        args.push(AbiValue::Address(authorizer));
        assert(values_of(args@) =~= values);
        let selector: [u8; 4] = [87, 73, 0, 221];
        assert(selector@ =~= seq![87u8, 73, 0, 221]);
        self.method_of_words(selector, &args)
    }

    /// Calls the contract's `renounceOwnership()` function.
    pub fn renounce_ownership(&self) -> (call: TransactionRequest)
        ensures
            call.to == self.address,
            call.data@ == seq![113u8, 80, 24, 166] + abi_encoding(Seq::<Value>::empty()),
    {
        let args: Vec<AbiValue> = Vec::new();
        assert(values_of(args@) =~= Seq::<Value>::empty());
        let selector: [u8; 4] = [113, 80, 24, 166];
        assert(selector@ =~= seq![113u8, 80, 24, 166]);
        self.method_of_words(selector, &args)
    }

    /// Calls the contract's `revokeDKIMPublicKeyHash(string,bytes32,address,bytes)` function.
    pub fn revoke_dkim_public_key_hash(
        &self,
        domain_name: String,
        public_key_hash: [u8; 32],
        authorizer: Address,
        signature: Vec<u8>,
    ) -> (call: Result<TransactionRequest, CallError>)
        ensures
            outcome_transaction(call) == method_call(
                self.address,
                seq![130u8, 191, 248, 205],
                seq![
                    Value::String(domain_name@),
                    Value::FixedBytes(public_key_hash@),
                    Value::Address(authorizer),
                    Value::Bytes(signature@),
                ],
            ),
    {
        let ghost values = seq![
            Value::String(domain_name@),
            Value::FixedBytes(public_key_hash@),
            Value::Address(authorizer),
            Value::Bytes(signature@),
        ];
        let mut args: Vec<AbiValue> = Vec::new();
        args.push(AbiValue::String(domain_name));
        args.push(AbiValue::bytes32(&public_key_hash));
        args.push(AbiValue::Address(authorizer));
        args.push(AbiValue::Bytes(signature));
        assert(values_of(args@) =~= values);
        let selector: [u8; 4] = [130, 191, 248, 205];
        assert(selector@ =~= seq![130u8, 191, 248, 205]);
        self.method_hash(selector, &args)
    }

    /// Calls the contract's `revokedDKIMPublicKeyHashes(bytes32,address)` function.
    pub fn revoked_dkim_public_key_hashes(
        &self,
        public_key_hash: [u8; 32],
        authorizer: Address,
    ) -> (call: TransactionRequest)
        ensures
            call.to == self.address,
            call.data@ == seq![240u8, 191, 177, 151] + abi_encoding(
                seq![
                    Value::FixedBytes(public_key_hash@),
                    Value::Address(authorizer),
                ],
            ),
    {
        let ghost values = seq![
            Value::FixedBytes(public_key_hash@),
            Value::Address(authorizer),
        ];
        let mut args: Vec<AbiValue> = Vec::new();
        args.push(AbiValue::bytes32(&public_key_hash));
        args.push(AbiValue::Address(authorizer));
        assert(values_of(args@) =~= values);
        let selector: [u8; 4] = [240, 191, 177, 151];
        assert(selector@ =~= seq![240u8, 191, 177, 151]);
        self.method_of_words(selector, &args)
    }

    /// Calls the contract's `setDKIMPublicKeyHash(string,bytes32,address,bytes)` function.
    pub fn set_dkim_public_key_hash(
        &self,
        domain_name: String,
        public_key_hash: [u8; 32],
        authorizer: Address,
        signature: Vec<u8>,
    ) -> (call: Result<TransactionRequest, CallError>)
        ensures
            outcome_transaction(call) == method_call(
                self.address,
                seq![97u8, 74, 68, 133],
                seq![
                    Value::String(domain_name@),
                    Value::FixedBytes(public_key_hash@),
                    Value::Address(authorizer),
                    Value::Bytes(signature@),
                ],
            ),
    {
        let ghost values = seq![
            Value::String(domain_name@),
            Value::FixedBytes(public_key_hash@),
            Value::Address(authorizer),
            Value::Bytes(signature@),
        ];
        let mut args: Vec<AbiValue> = Vec::new();
        args.push(AbiValue::String(domain_name));
        args.push(AbiValue::bytes32(&public_key_hash));
        args.push(AbiValue::Address(authorizer));
        args.push(AbiValue::Bytes(signature));
        assert(values_of(args@) =~= values);
        let selector: [u8; 4] = [97, 74, 68, 133];
        assert(selector@ =~= seq![97u8, 74, 68, 133]);
        self.method_hash(selector, &args)
    }

    /// Calls the contract's
    /// `setDKIMPublicKeyHashes(string[],bytes32[],address[],bytes[])` function.
    pub fn set_dkim_public_key_hashes(
        &self,
        domain_names: Vec<String>,
        public_key_hashes: Vec<[u8; 32]>,
        authorizers: Vec<Address>,
        signatures: Vec<Vec<u8>>,
    ) -> (call: Result<TransactionRequest, CallError>)
        ensures
            outcome_transaction(call) == method_call(
                self.address,
                seq![127u8, 241, 3, 218],
                seq![
                    string_list(domain_names@),
                    hash_list(public_key_hashes@),
                    address_list(authorizers@),
                    bytes_list(signatures@),
                ],
            ),
    {
        let ghost values = seq![
            string_list(domain_names@),
            hash_list(public_key_hashes@),
            address_list(authorizers@),
            bytes_list(signatures@),
        ];
        let mut args: Vec<AbiValue> = Vec::new();
        args.push(strings_token(&domain_names));
        args.push(hashes_token(&public_key_hashes));
        args.push(addresses_token(&authorizers));
        args.push(bytes_list_token(&signatures));
        assert(values_of(args@) =~= values);
        let selector: [u8; 4] = [127, 241, 3, 218];
        assert(selector@ =~= seq![127u8, 241, 3, 218]);
        self.method_hash(selector, &args)
    }

    /// Calls the contract's `setTimestampDelay()` function.
    pub fn set_timestamp_delay(&self) -> (call: TransactionRequest)
        ensures
            call.to == self.address,
            call.data@ == seq![129u8, 46, 18, 206] + abi_encoding(Seq::<Value>::empty()),
    {
        let args: Vec<AbiValue> = Vec::new();
        assert(values_of(args@) =~= Seq::<Value>::empty());
        let selector: [u8; 4] = [129, 46, 18, 206];
        assert(selector@ =~= seq![129u8, 46, 18, 206]);
        self.method_of_words(selector, &args)
    }

    /// Calls the contract's `transferOwnership(address)` function.
    pub fn transfer_ownership(
        &self,
        new_owner: Address,
    ) -> (call: TransactionRequest)
        ensures
            call.to == self.address,
            call.data@ == seq![242u8, 253, 227, 139] + abi_encoding(
                seq![
                    Value::Address(new_owner),
                ],
            ),
    {
        let ghost values = seq![
            Value::Address(new_owner),
        ];
        let mut args: Vec<AbiValue> = Vec::new();
        args.push(AbiValue::Address(new_owner));
        assert(values_of(args@) =~= values);
        let selector: [u8; 4] = [242, 253, 227, 139];
        assert(selector@ =~= seq![242u8, 253, 227, 139]);
        self.method_of_words(selector, &args)
    }

    /// Calls the contract's `upgradeToAndCall(address,bytes)` function.
    pub fn upgrade_to_and_call(
        &self,
        new_implementation: Address,
        data: Vec<u8>,
    ) -> (call: Result<TransactionRequest, CallError>)
        ensures
            outcome_transaction(call) == method_call(
                self.address,
                seq![79u8, 30, 242, 134],
                seq![
                    Value::Address(new_implementation),
                    Value::Bytes(data@),
                ],
            ),
    {
        let ghost values = seq![
            Value::Address(new_implementation),
            Value::Bytes(data@),
        ];
        let mut args: Vec<AbiValue> = Vec::new();
        args.push(AbiValue::Address(new_implementation));
        args.push(AbiValue::Bytes(data));
        assert(values_of(args@) =~= values);
        let selector: [u8; 4] = [79, 30, 242, 134];
        assert(selector@ =~= seq![79u8, 30, 242, 134]);
        self.method_hash(selector, &args)
    }

    /// The filter for the contract's `DKIMPublicKeyHashReactivated` event.
    pub fn dkim_public_key_hash_reactivated_filter(&self) -> (filter: EventFilter)
        ensures
            event_filter("DKIMPublicKeyHashReactivated(bytes32,address)"@, filter),
    {
        let signature: &str = "DKIMPublicKeyHashReactivated(bytes32,address)";
        EventFilter { address: None, topic0: Some(keccak256(signature.as_bytes())) }
    }

    /// The filter for the contract's `DKIMPublicKeyHashRegistered` event.
    pub fn dkim_public_key_hash_registered_filter(&self) -> (filter: EventFilter)
        ensures
            event_filter("DKIMPublicKeyHashRegistered(string,bytes32,address)"@, filter),
    {
        let signature: &str = "DKIMPublicKeyHashRegistered(string,bytes32,address)";
        EventFilter { address: None, topic0: Some(keccak256(signature.as_bytes())) }
    }

    /// The filter for the contract's `DKIMPublicKeyHashRevoked` event.
    pub fn dkim_public_key_hash_revoked_filter(&self) -> (filter: EventFilter)
        ensures
            event_filter("DKIMPublicKeyHashRevoked(bytes32,address)"@, filter),
    {
        let signature: &str = "DKIMPublicKeyHashRevoked(bytes32,address)";
        EventFilter { address: None, topic0: Some(keccak256(signature.as_bytes())) }
    }

    /// The filter for the contract's `Initialized` event.
    pub fn initialized_filter(&self) -> (filter: EventFilter)
        ensures
            event_filter("Initialized(uint64)"@, filter),
    {
        let signature: &str = "Initialized(uint64)";
        EventFilter { address: None, topic0: Some(keccak256(signature.as_bytes())) }
    }

    /// The filter for the contract's `MainAuthorizerChanged` event.
    pub fn main_authorizer_changed_filter(&self) -> (filter: EventFilter)
        ensures
            event_filter("MainAuthorizerChanged(address)"@, filter),
    {
        let signature: &str = "MainAuthorizerChanged(address)";
        EventFilter { address: None, topic0: Some(keccak256(signature.as_bytes())) }
    }

    /// The filter for the contract's `OwnershipTransferred` event.
    pub fn ownership_transferred_filter(&self) -> (filter: EventFilter)
        ensures
            event_filter("OwnershipTransferred(address,address)"@, filter),
    {
        let signature: &str = "OwnershipTransferred(address,address)";
        EventFilter { address: None, topic0: Some(keccak256(signature.as_bytes())) }
    }

    /// The filter for the contract's `Upgraded` event.
    pub fn upgraded_filter(&self) -> (filter: EventFilter)
        ensures
            event_filter("Upgraded(address)"@, filter),
    {
        let signature: &str = "Upgraded(address)";
        EventFilter { address: None, topic0: Some(keccak256(signature.as_bytes())) }
    }

    /// The filter for all events of this contract.
    pub fn events(&self) -> (filter: EventFilter)
        ensures
            filter.address == Some(self.address),
            filter.topic0 is None,
    {
        EventFilter { address: Some(self.address), topic0: None }
    }
}

} // verus!
