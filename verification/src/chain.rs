//! The chain account gateway: which chain a client signs for, the calls it
//! makes on the DKIM registry, and what a confirmed transaction reports.

use crate::abi::{all_conform, kinds_of, values_of, AbiType, AbiValue, Address, Kind, Value};
use crate::auth::EmailAuthMsg;
use crate::call::{
    function_call, function_transaction, method_call, outcome_transaction, ChainCallSpec,
    TransactionRequest,
};
use crate::codec::{function_selector, DecodeError};
use crate::function::{CallError, Function};
use crate::hex::{hex_encode, hex_text};
use crate::outputs::{decode_bool, returned_bool};
use vstd::array::array_as_slice;
use vstd::prelude::*;

verus! {

/// How to reach one chain and sign for it. It holds a secret and is not
/// printable.
#[derive(Clone, PartialEq, Eq)]
pub struct ChainConfig {
    pub private_key: String,
    pub rpc_url: String,
    pub chain_id: u64,
    pub min_confirmations: usize,
}

/// The configuration of one chain under its name.
#[derive(Clone, PartialEq, Eq)]
pub struct ChainEntry {
    pub name: String,
    pub config: ChainConfig,
}

/// Why the gateway failed.
#[derive(Clone, Copy, Debug, PartialEq, Eq, Structural)]
pub enum ChainError {
    /// The chain is not configured, or its key or endpoint cannot be read.
    ConfigurationError,
    /// The provider refused the transaction or could not be reached.
    SubmissionError,
    /// The wait for confirmations ended without a receipt.
    NoReceiptError,
}

/// The signing identity of one chain. It holds a secret and is not
/// printable.
#[derive(Clone, PartialEq, Eq)]
pub struct ChainClient {
    pub chain_id: u64,
    pub rpc_url: String,
    pub private_key: String,
    pub min_confirmations: usize,
}

/// Whether the wallet of `ethers` reads a text as a private key.
pub uninterp spec fn valid_private_key(key: Seq<char>) -> bool;

/// Whether the URL parser reads a text as the address of an endpoint.
pub uninterp spec fn valid_rpc_url(url: Seq<char>) -> bool;

/// `str::parse::<ethers::signers::LocalWallet>`: whether the text can be read
/// as a wallet's private key, that is, whether it is the hexadecimal form of
/// 32 bytes that are a valid secret key. The answer is a function of the text
/// alone.
#[verifier::external_body]
fn private_key_parses(key: &str) -> (ok: bool)
    ensures
        ok == valid_private_key(key@),
{
    key.parse::<ethers::signers::LocalWallet>().is_ok()
}

/// `reqwest::Url::parse`, as the HTTP provider of `ethers` calls it on its
/// endpoint: whether the text can be read as a URL. The answer is a function
/// of the text alone.
#[verifier::external_body]
fn rpc_url_parses(url: &str) -> (ok: bool)
    ensures
        ok == valid_rpc_url(url@),
{
    reqwest::Url::parse(url).is_ok()
}

/// Where the first entry with the given name stands.
pub open spec fn first_named(chains: Seq<ChainEntry>, name: Seq<char>) -> Option<int> {
    if exists|i: int| 0 <= i < chains.len() && (#[trigger] chains[i]).name@ == name {
        Some(
            choose|i: int|
                0 <= i < chains.len() && (#[trigger] chains[i]).name@ == name && forall|j: int|
                    0 <= j < i ==> (#[trigger] chains[j]).name@ != name,
        )
    } else {
        None
    }
}

/// Whether a client holds what a configuration says.
pub open spec fn client_of(client: ChainClient, config: ChainConfig) -> bool {
    &&& client.chain_id == config.chain_id
    &&& client.rpc_url@ == config.rpc_url@
    &&& client.private_key@ == config.private_key@
    &&& client.min_confirmations == config.min_confirmations
}

/// Whether a configuration can be used: its key and its endpoint can be read.
pub open spec fn usable(config: ChainConfig) -> bool {
    valid_private_key(config.private_key@) && valid_rpc_url(config.rpc_url@)
}

/// `0x` and the hash in lower-case hexadecimal digits.
pub open spec fn tx_hash_text(hash: Seq<u8>) -> Seq<char> {
    seq!['0', 'x'] + hex_text(hash)
}

/// The text of a transaction hash: `0x` and 64 hexadecimal digits.
pub fn format_tx_hash(hash: &[u8; 32]) -> (text: String)
    ensures
        text@ == tx_hash_text(hash@),
{
    let digits = hex_encode(array_as_slice(hash));
    let prefix: &str = "0x";
    proof {
        reveal_strlit("0x");
        assert(prefix@ =~= seq!['0', 'x']);
    }
    String::from_str(prefix).concat(digits.as_str())
}

/// What the wait for confirmations reports: the text of the transaction's
/// hash, or `NoReceiptError` where the wait ended without a receipt.
pub fn receipt_outcome(receipt: Option<[u8; 32]>) -> (outcome: Result<String, ChainError>)
    ensures
        match receipt {
            Some(hash) => outcome is Ok && outcome->Ok_0@ == tx_hash_text(hash@),
            None => outcome == Err::<String, ChainError>(ChainError::NoReceiptError),
        },
{
    match receipt {
        Some(hash) => Ok(format_tx_hash(&hash)),
        None => Err(ChainError::NoReceiptError),
    }
}

impl ChainClient {
    /// The client for the chain with the given name.
    ///
    /// Fails with `ConfigurationError` where no entry has that name, and where
    /// the key or the endpoint of the first such entry cannot be read.
    pub fn setup(chain: &str, chains: &Vec<ChainEntry>) -> (outcome: Result<Self, ChainError>)
        ensures
            match first_named(chains@, chain@) {
                Some(i) => 0 <= i < chains@.len() && if usable(chains@[i].config) {
                    outcome is Ok && client_of(outcome->Ok_0, chains@[i].config)
                } else {
                    outcome == Err::<Self, ChainError>(ChainError::ConfigurationError)
                },
                None => outcome == Err::<Self, ChainError>(ChainError::ConfigurationError),
            },
    {
        let name = String::from_str(chain);
        let mut i: usize = 0;
        while i < chains.len()
            invariant
                i <= chains@.len(),
                name@ == chain@,
                forall|j: int| 0 <= j < i ==> (#[trigger] chains@[j]).name@ != chain@,
            decreases chains@.len() - i,
        {
            if chains[i].name == name {
                let config = &chains[i].config;
                if !private_key_parses(config.private_key.as_str()) || !rpc_url_parses(
                    config.rpc_url.as_str(),
                ) {
                    return Err(ChainError::ConfigurationError);
                }
                return Ok(
                    ChainClient {
                        chain_id: config.chain_id,
                        rpc_url: config.rpc_url.clone(),
                        private_key: config.private_key.clone(),
                        min_confirmations: config.min_confirmations,
                    },
                );
            }
            i += 1;
        }
        Err(ChainError::ConfigurationError)
    }
}

/// The ECDSA-owned DKIM registry contract at one address.
#[derive(Clone, Copy, Debug, PartialEq, Eq)]
pub struct ECDSAOwnedDKIMRegistry {
    pub address: Address,
}

/// The input kinds of `setDKIMPublicKeyHash(string,string,bytes32,bytes)`.
pub open spec fn publish_kinds() -> Seq<Kind> {
    seq![Kind::String, Kind::String, Kind::FixedBytes(32), Kind::Bytes]
}

/// The input kinds of `isDKIMPublicKeyHashValid(string,bytes32)`.
pub open spec fn query_kinds() -> Seq<Kind> {
    seq![Kind::String, Kind::FixedBytes(32)]
}

/// The transaction that publishes a key hash for a domain.
pub open spec fn publish_call(
    registry: Address,
    selector: Seq<char>,
    domain_name: Seq<char>,
    public_key_hash: Seq<u8>,
    signature: Seq<u8>,
) -> Result<(Address, Seq<u8>), CallError> {
    method_call(
        registry,
        function_selector("setDKIMPublicKeyHash"@, publish_kinds()),
        seq![
            Value::String(selector),
            Value::String(domain_name),
            Value::FixedBytes(public_key_hash),
            Value::Bytes(signature),
        ],
    )
}

/// The read-only call that asks whether a key hash is valid for a domain.
pub open spec fn query_call(
    registry: Address,
    domain_name: Seq<char>,
    public_key_hash: Seq<u8>,
) -> Result<(Address, Seq<u8>), CallError> {
    method_call(
        registry,
        function_selector("isDKIMPublicKeyHashValid"@, query_kinds()),
        seq![Value::String(domain_name), Value::FixedBytes(public_key_hash)],
    )
}

impl ECDSAOwnedDKIMRegistry {
    /// The registry at `address`.
    pub fn new(address: Address) -> (registry: Self)
        ensures
            registry.address == address,
    {
        ECDSAOwnedDKIMRegistry { address }
    }

    /// The descriptor of `setDKIMPublicKeyHash(string,string,bytes32,bytes)`.
    pub fn publish_function() -> (function: Function)
        ensures
            function.name@ == "setDKIMPublicKeyHash"@,
            kinds_of(function.inputs@) == publish_kinds(),
            function.outputs@.len() == 0,
    {
        let mut inputs: Vec<AbiType> = Vec::new();
        inputs.push(AbiType::String);
        inputs.push(AbiType::String);
        inputs.push(AbiType::FixedBytes(32));
        inputs.push(AbiType::Bytes);
        assert(kinds_of(inputs@) =~= publish_kinds());
        Function {
            name: String::from_str("setDKIMPublicKeyHash"),
            inputs,
            outputs: Vec::new(),
        }
    }

    /// The descriptor of `isDKIMPublicKeyHashValid(string,bytes32)`, which
    /// returns a boolean.
    pub fn query_function() -> (function: Function)
        ensures
            function.name@ == "isDKIMPublicKeyHashValid"@,
            kinds_of(function.inputs@) == query_kinds(),
            kinds_of(function.outputs@) == seq![Kind::Bool],
    {
        let mut inputs: Vec<AbiType> = Vec::new();
        inputs.push(AbiType::String);
        inputs.push(AbiType::FixedBytes(32));
        assert(kinds_of(inputs@) =~= query_kinds());
        let mut outputs: Vec<AbiType> = Vec::new();
        outputs.push(AbiType::Bool);
        assert(kinds_of(outputs@) =~= seq![Kind::Bool]);
        Function { name: String::from_str("isDKIMPublicKeyHashValid"), inputs, outputs }
    }

    /// Calls the contract's `setDKIMPublicKeyHash(string,string,bytes32,bytes)`
    /// function.
    pub fn set_dkim_public_key_hash(
        &self,
        selector: String,
        domain_name: String,
        public_key_hash: [u8; 32],
        signature: Vec<u8>,
    ) -> (call: Result<TransactionRequest, CallError>)
        ensures
            outcome_transaction(call) == publish_call(
                self.address,
                selector@,
                domain_name@,
                public_key_hash@,
                signature@,
            ),
    {
        let ghost values = seq![
            Value::String(selector@),
            Value::String(domain_name@),
            Value::FixedBytes(public_key_hash@),
            Value::Bytes(signature@),
        ];
        let mut args: Vec<AbiValue> = Vec::new();
        args.push(AbiValue::String(selector));
        args.push(AbiValue::String(domain_name));
        args.push(AbiValue::bytes32(&public_key_hash));
        args.push(AbiValue::Bytes(signature));
        assert(values_of(args@) =~= values);
        assert(all_conform(values, publish_kinds()));
        function_call(self.address, &Self::publish_function(), &args)
    }

    /// Calls the contract's `isDKIMPublicKeyHashValid(string,bytes32)`
    /// function.
    pub fn is_dkim_public_key_hash_valid(
        &self,
        domain_name: String,
        public_key_hash: [u8; 32],
    ) -> (call: Result<TransactionRequest, CallError>)
        ensures
            outcome_transaction(call) == query_call(self.address, domain_name@, public_key_hash@),
    {
        let ghost values = seq![Value::String(domain_name@), Value::FixedBytes(public_key_hash@)];
        let mut args: Vec<AbiValue> = Vec::new();
        args.push(AbiValue::String(domain_name));
        args.push(AbiValue::bytes32(&public_key_hash));
        assert(values_of(args@) =~= values);
        assert(all_conform(values, query_kinds()));
        function_call(self.address, &Self::query_function(), &args)
    }
}

impl ChainClient {
    /// The transaction that publishes a key hash on the registry. It is to be
    /// signed and submitted under the chain's lock, and its confirmation
    /// reported by `receipt_outcome`.
    pub fn set_dkim_public_key_hash(
        &self,
        selector: String,
        domain_name: String,
        public_key_hash: [u8; 32],
        signature: Vec<u8>,
        dkim: &ECDSAOwnedDKIMRegistry,
    ) -> (call: Result<TransactionRequest, CallError>)
        ensures
            outcome_transaction(call) == publish_call(
                dkim.address,
                selector@,
                domain_name@,
                public_key_hash@,
                signature@,
            ),
    {
        dkim.set_dkim_public_key_hash(selector, domain_name, public_key_hash, signature)
    }

    /// The read-only call that asks the registry whether a key hash is valid
    /// for a domain. What the contract answers is read by `key_hash_validity`.
    pub fn check_if_dkim_public_key_hash_valid(
        &self,
        domain_name: String,
        public_key_hash: [u8; 32],
        dkim: &ECDSAOwnedDKIMRegistry,
    ) -> (call: Result<TransactionRequest, CallError>)
        ensures
            outcome_transaction(call) == query_call(dkim.address, domain_name@, public_key_hash@),
    {
        dkim.is_dkim_public_key_hash_valid(domain_name, public_key_hash)
    }

    /// What the registry answered to the query: the boolean that its return
    /// data holds.
    pub fn key_hash_validity(&self, return_data: &[u8]) -> (outcome: Result<bool, DecodeError>)
        ensures
            outcome == returned_bool(return_data@),
    {
        decode_bool(return_data)
    }

    /// The read-only call of a function of a contract with the given
    /// arguments. What the contract answers is read by the function's
    /// `decode_output`.
    pub fn view_call(
        &self,
        contract_address: Address,
        function: &Function,
        args: &Vec<AbiValue>,
    ) -> (call: Result<TransactionRequest, CallError>)
        ensures
            outcome_transaction(call) == function_transaction(
                contract_address,
                function.name@,
                kinds_of(function.inputs@),
                values_of(args@),
            ),
    {
        function_call(contract_address, function, args)
    }

    /// The transaction that calls the configured function of a request with
    /// the authorization as its first argument.
    pub fn call(&self, request: &ChainCallSpec, email_auth_msg: &EmailAuthMsg) -> (outcome:
        Result<TransactionRequest, CallError>)
        ensures
            outcome_transaction(outcome) == request.transaction(email_auth_msg@),
            !request.arity_matches() <==> outcome == Err::<TransactionRequest, CallError>(
                CallError::ArityMismatch,
            ),
    {
        request.build(email_auth_msg)
    }
}

} // verus!
