//! The authorization proof that goes first in every relayed call.

use crate::abi::{
    conforms, kind_of, kinds_of, same_tokens, spans, values_of, AbiType, AbiValue, Kind, Value,
    ENCODING_LIMIT, U256,
};
use crate::codec::{abi_encoding, decode, decoded, encode, DecodeError};
use vstd::array::array_as_slice;
use vstd::prelude::*;
use vstd::slice::slice_to_vec;

verus! {

/// The proof that an email was signed for a domain and holds a command.
#[derive(Clone, Debug, PartialEq, Eq)]
pub struct EmailProof {
    pub domain_name: String,
    pub public_key_hash: [u8; 32],
    pub timestamp: U256,
    pub masked_command: String,
    pub email_nullifier: [u8; 32],
    pub account_salt: [u8; 32],
    pub is_code_exist: bool,
    pub proof: Vec<u8>,
}

/// The authorization of one command: the template it follows, the parameters
/// taken from the command, and the email proof.
#[derive(Clone, Debug, PartialEq, Eq)]
pub struct EmailAuthMsg {
    pub template_id: U256,
    pub command_params: Vec<Vec<u8>>,
    pub skipped_command_prefix: U256,
    pub proof: EmailProof,
}

/// What an `EmailProof` holds.
pub struct EmailProofView {
    pub domain_name: Seq<char>,
    pub public_key_hash: Seq<u8>,
    pub timestamp: U256,
    pub masked_command: Seq<char>,
    pub email_nullifier: Seq<u8>,
    pub account_salt: Seq<u8>,
    pub is_code_exist: bool,
    pub proof: Seq<u8>,
}

/// What an `EmailAuthMsg` holds.
pub struct EmailAuthMsgView {
    pub template_id: U256,
    pub command_params: Seq<Seq<u8>>,
    pub skipped_command_prefix: U256,
    pub proof: EmailProofView,
}

impl EmailProofView {
    /// The three hashes hold 32 bytes each.
    pub open spec fn well_formed(self) -> bool {
        &&& self.public_key_hash.len() == 32
        &&& self.email_nullifier.len() == 32
        &&& self.account_salt.len() == 32
    }
}

impl View for EmailProof {
    type V = EmailProofView;

    open spec fn view(&self) -> EmailProofView {
        EmailProofView {
            domain_name: self.domain_name@,
            public_key_hash: self.public_key_hash@,
            timestamp: self.timestamp,
            masked_command: self.masked_command@,
            email_nullifier: self.email_nullifier@,
            account_salt: self.account_salt@,
            is_code_exist: self.is_code_exist,
            proof: self.proof@,
        }
    }
}

impl View for EmailAuthMsg {
    type V = EmailAuthMsgView;

    open spec fn view(&self) -> EmailAuthMsgView {
        EmailAuthMsgView {
            template_id: self.template_id,
            command_params: Seq::new(self.command_params@.len(), |i: int| self.command_params@[i]@),
            skipped_command_prefix: self.skipped_command_prefix,
            proof: self.proof@,
        }
    }
}

/// The fields of an email proof as values, in the order of the contract's tuple.
pub open spec fn proof_values(p: EmailProofView) -> Seq<Value> {
    seq![
        Value::String(p.domain_name),
        Value::FixedBytes(p.public_key_hash),
        Value::Uint(p.timestamp),
        Value::String(p.masked_command),
        Value::FixedBytes(p.email_nullifier),
        Value::FixedBytes(p.account_salt),
        Value::Bool(p.is_code_exist),
        Value::Bytes(p.proof),
    ]
}

/// The email proof that a list of values spells, where it spells one.
pub open spec fn proof_of_values(values: Seq<Value>) -> Option<EmailProofView> {
    if values.len() == 8 && values[0] is String && values[1] is FixedBytes
        && values[1]->FixedBytes_0.len() == 32 && values[2] is Uint && values[3] is String
        && values[4] is FixedBytes && values[4]->FixedBytes_0.len() == 32
        && values[5] is FixedBytes && values[5]->FixedBytes_0.len() == 32 && values[6] is Bool
        && values[7] is Bytes {
        Some(
            EmailProofView {
                domain_name: values[0]->String_0,
                public_key_hash: values[1]->FixedBytes_0,
                timestamp: values[2]->Uint_0,
                masked_command: values[3]->String_0,
                email_nullifier: values[4]->FixedBytes_0,
                account_salt: values[5]->FixedBytes_0,
                is_code_exist: values[6]->Bool_0,
                proof: values[7]->Bytes_0,
            },
        )
    } else {
        None
    }
}

/// Byte strings as values of dynamic size.
pub open spec fn bytes_values(items: Seq<Seq<u8>>) -> Seq<Value> {
    Seq::new(items.len(), |i: int| Value::Bytes(items[i]))
}

/// The byte strings that a list of values holds, where each is one.
pub open spec fn bytes_of_values(values: Seq<Value>) -> Option<Seq<Seq<u8>>> {
    if forall|i: int| 0 <= i < values.len() ==> #[trigger] values[i] is Bytes {
        Some(Seq::new(values.len(), |i: int| values[i]->Bytes_0))
    } else {
        None
    }
}

/// The fields of an authorization as values, in the order of the contract's
/// tuple: template, parameters, skipped prefix, proof.
pub open spec fn auth_values(m: EmailAuthMsgView) -> Seq<Value> {
    seq![
        Value::Uint(m.template_id),
        Value::Array(bytes_values(m.command_params)),
        Value::Uint(m.skipped_command_prefix),
        Value::Tuple(proof_values(m.proof)),
    ]
}

/// The authorization that a list of values spells, where it spells one.
pub open spec fn auth_of_values(values: Seq<Value>) -> Option<EmailAuthMsgView> {
    if values.len() == 4 && values[0] is Uint && values[1] is Array && bytes_of_values(
        values[1]->Array_0,
    ) is Some && values[2] is Uint && values[3] is Tuple && proof_of_values(
        values[3]->Tuple_0,
    ) is Some {
        Some(
            EmailAuthMsgView {
                template_id: values[0]->Uint_0,
                command_params: bytes_of_values(values[1]->Array_0)->Some_0,
                skipped_command_prefix: values[2]->Uint_0,
                proof: proof_of_values(values[3]->Tuple_0)->Some_0,
            },
        )
    } else {
        None
    }
}

/// The kinds of the fields of an email proof, in order.
pub open spec fn proof_kinds() -> Seq<Kind> {
    seq![
        Kind::String,
        Kind::FixedBytes(32),
        Kind::Uint(256),
        Kind::String,
        Kind::FixedBytes(32),
        Kind::FixedBytes(32),
        Kind::Bool,
        Kind::Bytes,
    ]
}

/// The kinds of the fields of an authorization, in order.
pub open spec fn auth_kinds() -> Seq<Kind> {
    seq![
        Kind::Uint(256),
        Kind::Array(Box::new(Kind::Bytes)),
        Kind::Uint(256),
        Kind::Tuple(proof_kinds()),
    ]
}

/// Reading back the values of an email proof gives the proof, field for field.
pub proof fn lemma_proof_round_trip(p: EmailProofView)
    requires
        p.well_formed(),
    ensures
        proof_of_values(proof_values(p)) == Some(p),
{
}

/// Reading back the values of an authorization gives the authorization, field
/// for field.
pub proof fn lemma_auth_round_trip(m: EmailAuthMsgView)
    requires
        m.proof.well_formed(),
    ensures
        auth_of_values(auth_values(m)) == Some(m),
{
    lemma_proof_round_trip(m.proof);
    let items = bytes_values(m.command_params);
    assert(bytes_of_values(items)->Some_0 =~= m.command_params);
}

/// The values of an authorization fit the tuple that the contract declares.
pub proof fn lemma_auth_conforms(m: EmailAuthMsgView)
    requires
        m.proof.well_formed(),
    ensures
        conforms(Value::Tuple(auth_values(m)), Kind::Tuple(auth_kinds())),
{
    let inner = proof_values(m.proof);
    assert(conforms(Value::Tuple(inner), Kind::Tuple(proof_kinds()))) by {
        assert forall|i: int| 0 <= i < inner.len() implies conforms(
            #[trigger] inner[i],
            proof_kinds()[i],
        ) by {}
    }
    let items = bytes_values(m.command_params);
    assert(conforms(Value::Array(items), Kind::Array(Box::new(Kind::Bytes)))) by {
        assert forall|i: int| 0 <= i < items.len() implies conforms(
            #[trigger] items[i],
            Kind::Bytes,
        ) by {}
    }
    let outer = auth_values(m);
    assert forall|i: int| 0 <= i < outer.len() implies conforms(
        #[trigger] outer[i],
        auth_kinds()[i],
    ) by {}
}

/// The bytes of a 32-byte array as a vector.
fn hash_to_vec(hash: &[u8; 32]) -> (bytes: Vec<u8>)
    ensures
        bytes@ == hash@,
{
    slice_to_vec(array_as_slice(hash))
}

/// The 32 bytes of a vector as an array.
fn vec_to_hash(bytes: &Vec<u8>) -> (hash: [u8; 32])
    requires
        bytes@.len() == 32,
    ensures
        hash@ == bytes@,
{
    let mut hash: [u8; 32] = [0u8; 32];
    let mut i: usize = 0;
    while i < 32
        invariant
            i <= 32,
            bytes@.len() == 32,
            forall|j: int| 0 <= j < i ==> hash@[j] == bytes@[j],
        decreases 32 - i,
    {
        hash[i] = bytes[i];
        i += 1;
    }
    assert(hash@ =~= bytes@);
    hash
}

/// Copies of byte strings, each as a token of dynamic size.
fn bytes_tokens(items: &Vec<Vec<u8>>) -> (tokens: Vec<AbiValue>)
    ensures
        values_of(tokens@) == bytes_values(Seq::new(items@.len(), |i: int| items@[i]@)),
{
    let mut tokens: Vec<AbiValue> = Vec::new();
    let mut i: usize = 0;
    while i < items.len()
        invariant
            i <= items@.len(),
            tokens@.len() == i,
            forall|j: int| 0 <= j < i ==> (#[trigger] tokens@[j])@ == Value::Bytes(items@[j]@),
        decreases items@.len() - i,
    {
        tokens.push(AbiValue::Bytes(items[i].clone()));
        i += 1;
    }
    assert(values_of(tokens@) =~= bytes_values(Seq::new(items@.len(), |i: int| items@[i]@)));
    tokens
}

/// The byte strings that a list of tokens holds, where each is one.
fn tokens_bytes(tokens: &Vec<AbiValue>) -> (items: Option<Vec<Vec<u8>>>)
    ensures
        match items {
            Some(list) => bytes_of_values(values_of(tokens@)) == Some(
                Seq::new(list@.len(), |i: int| list@[i]@),
            ),
            None => bytes_of_values(values_of(tokens@)) is None,
        },
{
    let mut items: Vec<Vec<u8>> = Vec::new();
    let mut i: usize = 0;
    while i < tokens.len()
        invariant
            i <= tokens@.len(),
            items@.len() == i,
            forall|j: int|
                0 <= j < i ==> (#[trigger] values_of(tokens@)[j]) == Value::Bytes(items@[j]@),
        decreases tokens@.len() - i,
    {
        match &tokens[i] {
            AbiValue::Bytes(b) => {
                items.push(b.clone());
            },
            _ => {
                assert(!(values_of(tokens@)[i as int] is Bytes));
                return None;
            },
        }
        i += 1;
    }
    assert(bytes_of_values(values_of(tokens@))->Some_0 =~= Seq::new(
        items@.len(),
        |i: int| items@[i]@,
    ));
    Some(items)
}

/// What an outcome that holds an email proof stands for.
pub open spec fn proof_view(outcome: Option<EmailProof>) -> Option<EmailProofView> {
    match outcome {
        Some(p) => Some(p@),
        None => None,
    }
}

/// What an outcome that holds an authorization stands for.
pub open spec fn auth_view(outcome: Option<EmailAuthMsg>) -> Option<EmailAuthMsgView> {
    match outcome {
        Some(m) => Some(m@),
        None => None,
    }
}

impl EmailProof {
    /// The type of the proof tuple that the contract declares.
    pub fn abi_type() -> (param_type: AbiType)
        ensures
            param_type@ == Kind::Tuple(proof_kinds()),
    {
        let mut parts: Vec<AbiType> = Vec::new();
        parts.push(AbiType::String);
        parts.push(AbiType::FixedBytes(32));
        parts.push(AbiType::Uint(256));
        parts.push(AbiType::String);
        parts.push(AbiType::FixedBytes(32));
        parts.push(AbiType::FixedBytes(32));
        parts.push(AbiType::Bool);
        parts.push(AbiType::Bytes);
        assert(kinds_of(parts@) =~= proof_kinds());
        AbiType::Tuple(parts)
    }

    /// The fields as tokens, in the order of the contract's tuple.
    pub fn to_tokens(&self) -> (tokens: Vec<AbiValue>)
        ensures
            values_of(tokens@) == proof_values(self@),
    {
        let mut tokens: Vec<AbiValue> = Vec::new();
        tokens.push(AbiValue::String(self.domain_name.clone()));
        tokens.push(AbiValue::FixedBytes(hash_to_vec(&self.public_key_hash)));
        tokens.push(AbiValue::Uint(self.timestamp));
        tokens.push(AbiValue::String(self.masked_command.clone()));
        tokens.push(AbiValue::FixedBytes(hash_to_vec(&self.email_nullifier)));
        tokens.push(AbiValue::FixedBytes(hash_to_vec(&self.account_salt)));
        tokens.push(AbiValue::Bool(self.is_code_exist));
        tokens.push(AbiValue::Bytes(self.proof.clone()));
        assert(values_of(tokens@) =~= proof_values(self@));
        tokens
    }

    /// The proof that a list of tokens spells, or `None` where the list does
    /// not have the shape of one.
    pub fn from_tokens(tokens: &Vec<AbiValue>) -> (outcome: Option<EmailProof>)
        ensures
            proof_view(outcome) == proof_of_values(values_of(tokens@)),
    {
        if tokens.len() != 8 {
            return None;
        }
        let ghost values = values_of(tokens@);
        match (
            &tokens[0],
            &tokens[1],
            &tokens[2],
            &tokens[3],
            &tokens[4],
            &tokens[5],
            &tokens[6],
            &tokens[7],
        ) {
            (
                AbiValue::String(domain_name),
                AbiValue::FixedBytes(public_key_hash),
                AbiValue::Uint(timestamp),
                AbiValue::String(masked_command),
                AbiValue::FixedBytes(email_nullifier),
                AbiValue::FixedBytes(account_salt),
                AbiValue::Bool(is_code_exist),
                AbiValue::Bytes(proof),
            ) => {
                if public_key_hash.len() != 32 || email_nullifier.len() != 32
                    || account_salt.len() != 32 {
                    return None;
                }
                let found = EmailProof {
                    domain_name: domain_name.clone(),
                    public_key_hash: vec_to_hash(public_key_hash),
                    timestamp: *timestamp,
                    masked_command: masked_command.clone(),
                    email_nullifier: vec_to_hash(email_nullifier),
                    account_salt: vec_to_hash(account_salt),
                    is_code_exist: *is_code_exist,
                    proof: proof.clone(),
                };
                Some(found)
            },
            _ => None,
        }
    }
}

impl EmailAuthMsg {
    /// The type of the authorization tuple that the contract declares.
    pub fn abi_type() -> (param_type: AbiType)
        ensures
            param_type@ == Kind::Tuple(auth_kinds()),
    {
        let mut parts: Vec<AbiType> = Vec::new();
        parts.push(AbiType::Uint(256));
        parts.push(AbiType::Array(Box::new(AbiType::Bytes)));
        parts.push(AbiType::Uint(256));
        parts.push(EmailProof::abi_type());
        assert(kind_of(AbiType::Bytes) == Kind::Bytes);
        assert(kinds_of(parts@) =~= auth_kinds());
        AbiType::Tuple(parts)
    }

    /// The fields as tokens, in the order of the contract's tuple.
    pub fn to_tokens(&self) -> (tokens: Vec<AbiValue>)
        ensures
            values_of(tokens@) == auth_values(self@),
    {
        let mut tokens: Vec<AbiValue> = Vec::new();
        tokens.push(AbiValue::Uint(self.template_id));
        tokens.push(AbiValue::Array(bytes_tokens(&self.command_params)));
        tokens.push(AbiValue::Uint(self.skipped_command_prefix));
        tokens.push(AbiValue::Tuple(self.proof.to_tokens()));
        assert(values_of(tokens@) =~= auth_values(self@));
        tokens
    }

    /// The authorization that a list of tokens spells, or `None` where the
    /// list does not have the shape of one.
    pub fn from_tokens(tokens: &Vec<AbiValue>) -> (outcome: Option<EmailAuthMsg>)
        ensures
            auth_view(outcome) == auth_of_values(values_of(tokens@)),
    {
        if tokens.len() != 4 {
            return None;
        }
        match (&tokens[0], &tokens[1], &tokens[2], &tokens[3]) {
            (
                AbiValue::Uint(template_id),
                AbiValue::Array(params),
                AbiValue::Uint(skipped_command_prefix),
                AbiValue::Tuple(inner),
            ) => {
                let command_params = match tokens_bytes(params) {
                    Some(list) => list,
                    None => {
                        return None;
                    },
                };
                let proof = match EmailProof::from_tokens(inner) {
                    Some(p) => p,
                    None => {
                        return None;
                    },
                };
                let found = EmailAuthMsg {
                    template_id: *template_id,
                    command_params,
                    skipped_command_prefix: *skipped_command_prefix,
                    proof,
                };
                Some(found)
            },
            _ => None,
        }
    }
}

/// The ABI encoding of an authorization: that of its tuple as one argument.
pub open spec fn auth_encoding(m: EmailAuthMsgView) -> Seq<u8> {
    abi_encoding(seq![Value::Tuple(auth_values(m))])
}

/// The authorization that data holds as one tuple of the declared type.
pub open spec fn auth_decoded(data: Seq<u8>) -> Result<EmailAuthMsgView, DecodeError> {
    match decoded(seq![Kind::Tuple(auth_kinds())], data) {
        Ok(values) => if values.len() == 1 && values[0] is Tuple && auth_of_values(
            values[0]->Tuple_0,
        ) is Some {
            Ok(auth_of_values(values[0]->Tuple_0)->Some_0)
        } else {
            Err(DecodeError::InvalidData)
        },
        Err(e) => Err(e),
    }
}

/// Where the decoder reads the tuple of an authorization back from data, the
/// authorization read from the data is the same, field for field.
pub proof fn lemma_decoded_tuple_is_auth(m: EmailAuthMsgView, data: Seq<u8>)
    requires
        m.proof.well_formed(),
        decoded(seq![Kind::Tuple(auth_kinds())], data) == Ok::<Seq<Value>, DecodeError>(
            seq![Value::Tuple(auth_values(m))],
        ),
    ensures
        auth_decoded(data) == Ok::<EmailAuthMsgView, DecodeError>(m),
{
    lemma_auth_round_trip(m);
}

impl EmailAuthMsg {
    /// The authorization as one tuple token.
    pub fn to_token(&self) -> (token: AbiValue)
        ensures
            token@ == Value::Tuple(auth_values(self@)),
    {
        AbiValue::Tuple(self.to_tokens())
    }

    /// The ABI encoding of the authorization, or `None` where it is too
    /// large to encode.
    pub fn encode(&self) -> (bytes: Option<Vec<u8>>)
        ensures
            match bytes {
                Some(b) => b@ == auth_encoding(self@) && spans(
                    seq![Value::Tuple(auth_values(self@))],
                ) <= ENCODING_LIMIT,
                None => spans(seq![Value::Tuple(auth_values(self@))]) > ENCODING_LIMIT,
            },
    {
        let mut tokens: Vec<AbiValue> = Vec::new();
        tokens.push(self.to_token());
        assert(values_of(tokens@) =~= seq![Value::Tuple(auth_values(self@))]);
        encode(&tokens)
    }

    /// The authorization that data holds.
    pub fn decode(data: &[u8]) -> (outcome: Result<EmailAuthMsg, DecodeError>)
        ensures
            match auth_decoded(data@) {
                Ok(m) => outcome is Ok && outcome->Ok_0@ == m,
                Err(e) => outcome is Err && outcome->Err_0 == e,
            },
    {
        let mut types: Vec<AbiType> = Vec::new();
        types.push(Self::abi_type());
        assert(kinds_of(types@) =~= seq![Kind::Tuple(auth_kinds())]);
        let list = decode(&types, data)?;
        if list.len() != 1 {
            return Err(DecodeError::InvalidData);
        }
        match &list[0] {
            AbiValue::Tuple(fields) => match Self::from_tokens(fields) {
                Some(m) => Ok(m),
                None => Err(DecodeError::InvalidData),
            },
            _ => Err(DecodeError::InvalidData),
        }
    }

    /// Whether two authorizations hold the same fields.
    pub fn same_as(&self, other: &EmailAuthMsg) -> (same: bool)
        ensures
            same == (self@ == other@),
    {
        proof {
            lemma_auth_round_trip(self@);
            lemma_auth_round_trip(other@);
        }
        same_tokens(&self.to_tokens(), &other.to_tokens())
    }

    /// The ABI encoding of the authorization, handed out only after the
    /// decoder has read the same authorization back from it.
    pub fn encode_checked(&self) -> (bytes: Option<Vec<u8>>)
        ensures
            match bytes {
                Some(b) => b@ == auth_encoding(self@) && auth_decoded(b@) == Ok::<
                    EmailAuthMsgView,
                    DecodeError,
                >(self@),
                None => spans(seq![Value::Tuple(auth_values(self@))]) > ENCODING_LIMIT
                    || auth_decoded(auth_encoding(self@)) != Ok::<EmailAuthMsgView, DecodeError>(
                    self@,
                ),
            },
    {
        let encoded = match self.encode() {
            Some(b) => b,
            None => {
                return None;
            },
        };
        match Self::decode(encoded.as_slice()) {
            Ok(back) => if back.same_as(self) {
                Some(encoded)
            } else {
                None
            },
            Err(_) => None,
        }
    }
}

} // verus!
