use relayer::abi::{same_tokens, AbiType, AbiValue, Address, U256};
use relayer::auth::{EmailAuthMsg, EmailProof};
use relayer::call::{ChainCallSpec, TransactionRequest};
use relayer::codec::{decode, encode, DecodeError};
use relayer::function::{CallError, Function};

fn sample_proof() -> EmailProof {
    EmailProof {
        domain_name: "example.com".to_string(),
        public_key_hash: [0x11; 32],
        timestamp: U256::from_u64(1_700_000_000),
        masked_command: "recover account".to_string(),
        email_nullifier: [0x22; 32],
        account_salt: [0x33; 32],
        is_code_exist: true,
        proof: vec![0xde, 0xad, 0xbe, 0xef],
    }
}

fn sample_auth() -> EmailAuthMsg {
    EmailAuthMsg {
        template_id: U256::from_u64(5),
        command_params: vec![vec![1, 2, 3], vec![], vec![0xff; 40]],
        skipped_command_prefix: U256::from_u64(2),
        proof: sample_proof(),
    }
}

fn beef() -> Address {
    let mut bytes = [0u8; 20];
    bytes[18] = 0xbe;
    bytes[19] = 0xef;
    Address { bytes }
}

fn foo() -> Function {
    Function {
        name: "foo".to_string(),
        inputs: vec![EmailAuthMsg::abi_type(), AbiType::Uint(256)],
        outputs: vec![],
    }
}

#[test]
fn proof_tokens_keep_the_field_order() {
    assert_eq!(
        sample_proof().to_tokens(),
        vec![
            AbiValue::String("example.com".to_string()),
            AbiValue::FixedBytes(vec![0x11; 32]),
            AbiValue::Uint(U256::from_u64(1_700_000_000)),
            AbiValue::String("recover account".to_string()),
            AbiValue::FixedBytes(vec![0x22; 32]),
            AbiValue::FixedBytes(vec![0x33; 32]),
            AbiValue::Bool(true),
            AbiValue::Bytes(vec![0xde, 0xad, 0xbe, 0xef]),
        ]
    );
}

#[test]
fn auth_tokens_keep_the_field_order() {
    assert_eq!(
        sample_auth().to_tokens(),
        vec![
            AbiValue::Uint(U256::from_u64(5)),
            AbiValue::Array(vec![
                AbiValue::Bytes(vec![1, 2, 3]),
                AbiValue::Bytes(vec![]),
                AbiValue::Bytes(vec![0xff; 40]),
            ]),
            AbiValue::Uint(U256::from_u64(2)),
            AbiValue::Tuple(sample_proof().to_tokens()),
        ]
    );
}

#[test]
fn auth_tokens_fit_the_declared_tuple() {
    let token = AbiValue::Tuple(sample_auth().to_tokens());
    assert!(token.type_check(&EmailAuthMsg::abi_type()));
    let inner = AbiValue::Tuple(sample_proof().to_tokens());
    assert!(inner.type_check(&EmailProof::abi_type()));
    assert!(!inner.type_check(&EmailAuthMsg::abi_type()));
}

#[test]
fn tokens_read_back_give_the_proof() {
    assert_eq!(EmailProof::from_tokens(&sample_proof().to_tokens()), Some(sample_proof()));
    assert_eq!(EmailAuthMsg::from_tokens(&sample_auth().to_tokens()), Some(sample_auth()));
}

#[test]
fn tokens_of_another_shape_give_no_proof() {
    let mut short = sample_proof().to_tokens();
    short.pop();
    assert_eq!(EmailProof::from_tokens(&short), None);
    let mut swapped = sample_proof().to_tokens();
    swapped.swap(0, 2);
    assert_eq!(EmailProof::from_tokens(&swapped), None);
    let mut narrow = sample_proof().to_tokens();
    narrow[1] = AbiValue::FixedBytes(vec![0x11; 31]);
    assert_eq!(EmailProof::from_tokens(&narrow), None);
    let mut mixed = sample_auth().to_tokens();
    mixed[1] = AbiValue::Array(vec![AbiValue::Bool(true)]);
    assert_eq!(EmailAuthMsg::from_tokens(&mixed), None);
    assert_eq!(EmailAuthMsg::from_tokens(&sample_proof().to_tokens()), None);
}

#[test]
fn encoded_proof_decodes_to_the_same_fields() {
    let data = encode(&vec![AbiValue::Tuple(sample_auth().to_tokens())]).unwrap();
    let decoded = decode(&vec![EmailAuthMsg::abi_type()], &data).unwrap();
    assert_eq!(decoded.len(), 1);
    let fields = match &decoded[0] {
        AbiValue::Tuple(fields) => fields,
        other => panic!("not a tuple: {:?}", other),
    };
    let back = EmailAuthMsg::from_tokens(fields).unwrap();
    assert_eq!(back, sample_auth());
    assert_eq!(back.proof.domain_name, "example.com");
    assert_eq!(back.proof.public_key_hash, [0x11; 32]);
    assert_eq!(back.proof.timestamp, U256::from_u64(1_700_000_000));
    assert_eq!(back.proof.masked_command, "recover account");
    assert_eq!(back.proof.email_nullifier, [0x22; 32]);
    assert_eq!(back.proof.account_salt, [0x33; 32]);
    assert!(back.proof.is_code_exist);
    assert_eq!(back.proof.proof, vec![0xde, 0xad, 0xbe, 0xef]);
}

#[test]
fn call_to_beef_decodes_to_forty_two() {
    let spec = ChainCallSpec {
        contract_address: beef(),
        function: foo(),
        extra_args: vec![AbiValue::Uint(U256::from_u64(42))],
    };
    let tx = spec.build(&sample_auth()).unwrap();
    assert_eq!(tx.to, beef());
    assert_eq!(&tx.data[..4], &foo().selector());
    let args = foo().decode_input(&tx.data).unwrap();
    assert_eq!(args.len(), 2);
    assert_eq!(args[1], AbiValue::Uint(U256::from_u64(42)));
    assert_eq!(args[0], AbiValue::Tuple(sample_auth().to_tokens()));
}

#[test]
fn arguments_start_with_the_authorization() {
    let spec = ChainCallSpec {
        contract_address: beef(),
        function: foo(),
        extra_args: vec![AbiValue::Uint(U256::from_u64(42))],
    };
    assert_eq!(
        spec.arguments(&sample_auth()),
        vec![AbiValue::Tuple(sample_auth().to_tokens()), AbiValue::Uint(U256::from_u64(42))]
    );
}

#[test]
fn arity_mismatch_gives_no_transaction() {
    let none = ChainCallSpec { contract_address: beef(), function: foo(), extra_args: vec![] };
    assert_eq!(none.check_arity(), Err(CallError::ArityMismatch));
    assert_eq!(none.build(&sample_auth()), Err(CallError::ArityMismatch));
    let two = ChainCallSpec {
        contract_address: beef(),
        function: foo(),
        extra_args: vec![AbiValue::Uint(U256::from_u64(1)), AbiValue::Uint(U256::from_u64(2))],
    };
    assert_eq!(two.build(&sample_auth()), Err(CallError::ArityMismatch));
    let bare = ChainCallSpec {
        contract_address: beef(),
        function: Function { name: "foo".to_string(), inputs: vec![], outputs: vec![] },
        extra_args: vec![],
    };
    assert_eq!(bare.build(&sample_auth()), Err(CallError::ArityMismatch));
}

#[test]
fn matching_arity_is_accepted() {
    let spec = ChainCallSpec {
        contract_address: beef(),
        function: foo(),
        extra_args: vec![AbiValue::Uint(U256::from_u64(42))],
    };
    assert_eq!(spec.check_arity(), Ok(()));
}

#[test]
fn ill_typed_argument_is_an_encoding_error() {
    let spec = ChainCallSpec {
        contract_address: beef(),
        function: foo(),
        extra_args: vec![AbiValue::Bool(true)],
    };
    assert_eq!(spec.build(&sample_auth()), Err(CallError::EncodingError));
    let wrong_first = ChainCallSpec {
        contract_address: beef(),
        function: Function {
            name: "foo".to_string(),
            inputs: vec![AbiType::Uint(256), AbiType::Uint(256)],
            outputs: vec![],
        },
        extra_args: vec![AbiValue::Uint(U256::from_u64(42))],
    };
    assert_eq!(wrong_first.build(&sample_auth()), Err(CallError::EncodingError));
}

#[test]
fn transaction_holds_target_and_data() {
    let spec = ChainCallSpec {
        contract_address: beef(),
        function: foo(),
        extra_args: vec![AbiValue::Uint(U256::from_u64(42))],
    };
    let tokens = spec.arguments(&sample_auth());
    let expected = TransactionRequest {
        to: beef(),
        data: foo().encode_input(&tokens).unwrap(),
    };
    assert_eq!(spec.build(&sample_auth()), Ok(expected));
}

#[test]
fn authorization_bytes_round_trip() {
    let bytes = sample_auth().encode().unwrap();
    assert_eq!(bytes.len() % 32, 0);
    assert_eq!(EmailAuthMsg::decode(&bytes), Ok(sample_auth()));
    assert_eq!(sample_auth().encode_checked(), Some(bytes));
}

#[test]
fn authorization_encoding_is_that_of_its_tuple() {
    let direct = encode(&vec![sample_auth().to_token()]).unwrap();
    assert_eq!(sample_auth().encode(), Some(direct));
    assert_eq!(sample_auth().to_token(), AbiValue::Tuple(sample_auth().to_tokens()));
}

#[test]
fn damaged_bytes_give_no_authorization() {
    let bytes = sample_auth().encode().unwrap();
    assert_eq!(EmailAuthMsg::decode(&bytes[..bytes.len() - 32]), Err(DecodeError::InvalidData));
    assert_eq!(EmailAuthMsg::decode(&[]), Err(DecodeError::InvalidData));
    let other = encode(&vec![AbiValue::Tuple(sample_proof().to_tokens())]).unwrap();
    assert!(EmailAuthMsg::decode(&other).is_err());
}

#[test]
fn authorizations_are_compared_field_by_field() {
    assert!(sample_auth().same_as(&sample_auth()));
    let mut other = sample_auth();
    other.proof.account_salt[31] ^= 1;
    assert!(!sample_auth().same_as(&other));
    let mut longer = sample_auth();
    longer.command_params.push(vec![]);
    assert!(!sample_auth().same_as(&longer));
}

#[test]
fn tokens_are_compared_by_value() {
    let a = AbiValue::Tuple(sample_auth().to_tokens());
    assert!(a.same_as(&AbiValue::Tuple(sample_auth().to_tokens())));
    assert!(!a.same_as(&AbiValue::Array(sample_auth().to_tokens())));
    assert!(!AbiValue::Uint(U256::from_u64(1)).same_as(&AbiValue::Int(U256::from_u64(1))));
    assert!(!AbiValue::Uint(U256::from_u64(1)).same_as(&AbiValue::Uint(U256::from_u64(2))));
    assert!(!AbiValue::Bytes(vec![1]).same_as(&AbiValue::FixedBytes(vec![1])));
    assert!(AbiValue::String("a".to_string()).same_as(&AbiValue::String("a".to_string())));
    assert!(!AbiValue::Bool(true).same_as(&AbiValue::Bool(false)));
    assert!(beef().same_as(&beef()));
    assert!(!beef().same_as(&Address { bytes: [0; 20] }));
    assert!(same_tokens(&vec![], &vec![]));
    assert!(!same_tokens(&vec![AbiValue::Bool(true)], &vec![]));
}

#[test]
fn call_spec_is_made_with_matching_arity_only() {
    let good = ChainCallSpec::new(beef(), foo(), vec![AbiValue::Uint(U256::from_u64(42))]);
    let good = good.unwrap();
    assert_eq!(good.contract_address, beef());
    assert_eq!(good.function.name, "foo");
    assert_eq!(good.extra_args, vec![AbiValue::Uint(U256::from_u64(42))]);
    assert!(good.build(&sample_auth()).is_ok());
    let none = ChainCallSpec::new(beef(), foo(), vec![]);
    assert!(matches!(none, Err(CallError::ArityMismatch)));
    let two = ChainCallSpec::new(beef(), foo(), vec![AbiValue::Bool(true), AbiValue::Bool(true)]);
    assert!(matches!(two, Err(CallError::ArityMismatch)));
}
