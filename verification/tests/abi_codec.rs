use relayer::abi::{footprints, items_check, types_check, AbiType, AbiValue, Address, U256};
use relayer::codec::{decode, encode, DecodeError};
use relayer::function::{frame_call, starts_with_selector, CallError, Function};

fn word(last: u8) -> Vec<u8> {
    let mut w = vec![0u8; 32];
    w[31] = last;
    w
}

fn words(lasts: &[u8]) -> Vec<u8> {
    let mut out = Vec::new();
    for l in lasts {
        out.extend(word(*l));
    }
    out
}

fn baz() -> Function {
    Function {
        name: "baz".to_string(),
        inputs: vec![AbiType::Uint(32), AbiType::Bool],
        outputs: vec![],
    }
}

fn sam() -> Function {
    Function {
        name: "sam".to_string(),
        inputs: vec![
            AbiType::Bytes,
            AbiType::Bool,
            AbiType::Array(Box::new(AbiType::Uint(256))),
        ],
        outputs: vec![],
    }
}

#[test]
fn u256_from_and_to_u64() {
    let v = U256::from_u64(42);
    assert_eq!(v.limbs, [42, 0, 0, 0]);
    assert_eq!(v.to_u64(), Some(42));
    assert_eq!(U256 { limbs: [1, 1, 0, 0] }.to_u64(), None);
    assert_eq!(U256 { limbs: [u64::MAX, 0, 0, 0] }.to_u64(), Some(u64::MAX));
}

#[test]
fn scalar_tokens_fit_their_types_only() {
    let a = AbiValue::Address(Address { bytes: [0x11; 20] });
    assert!(a.type_check(&AbiType::Address));
    assert!(!a.type_check(&AbiType::Bool));
    assert!(AbiValue::Bool(true).type_check(&AbiType::Bool));
    assert!(!AbiValue::Bool(true).type_check(&AbiType::Uint(8)));
    assert!(AbiValue::String("x".to_string()).type_check(&AbiType::String));
    assert!(!AbiValue::String("x".to_string()).type_check(&AbiType::Bytes));
    assert!(AbiValue::Bytes(vec![1]).type_check(&AbiType::Bytes));
    assert!(!AbiValue::Bytes(vec![1]).type_check(&AbiType::FixedBytes(1)));
}

#[test]
fn integers_fit_any_width_of_their_sign() {
    let u = AbiValue::Uint(U256::from_u64(0));
    assert!(u.type_check(&AbiType::Uint(256)));
    assert!(u.type_check(&AbiType::Uint(32)));
    assert!(!u.type_check(&AbiType::Int(256)));
    let i = AbiValue::Int(U256::from_u64(0));
    assert!(i.type_check(&AbiType::Int(8)));
    assert!(!i.type_check(&AbiType::Uint(8)));
}

#[test]
fn fixed_bytes_fit_when_not_longer_than_declared() {
    assert!(AbiValue::FixedBytes(vec![0, 0, 0, 0]).type_check(&AbiType::FixedBytes(4)));
    assert!(AbiValue::FixedBytes(vec![0, 0, 0]).type_check(&AbiType::FixedBytes(4)));
    assert!(!AbiValue::FixedBytes(vec![0, 0, 0, 0]).type_check(&AbiType::FixedBytes(3)));
}

#[test]
fn arrays_fit_when_every_item_fits() {
    let bools = AbiValue::Array(vec![AbiValue::Bool(false), AbiValue::Bool(true)]);
    assert!(bools.type_check(&AbiType::Array(Box::new(AbiType::Bool))));
    assert!(!bools.type_check(&AbiType::Array(Box::new(AbiType::Address))));
    let mixed = AbiValue::Array(vec![AbiValue::Bool(false), AbiValue::Uint(U256::from_u64(0))]);
    assert!(!mixed.type_check(&AbiType::Array(Box::new(AbiType::Bool))));
    let empty = AbiValue::Array(vec![]);
    assert!(empty.type_check(&AbiType::Array(Box::new(AbiType::Bool))));
}

#[test]
fn fixed_arrays_need_the_declared_length() {
    let two = AbiValue::FixedArray(vec![AbiValue::Bool(false), AbiValue::Bool(true)]);
    assert!(two.type_check(&AbiType::FixedArray(Box::new(AbiType::Bool), 2)));
    assert!(!two.type_check(&AbiType::FixedArray(Box::new(AbiType::Bool), 3)));
    assert!(!two.type_check(&AbiType::FixedArray(Box::new(AbiType::Address), 2)));
    assert!(!two.type_check(&AbiType::Array(Box::new(AbiType::Bool))));
}

#[test]
fn tuples_need_every_part() {
    let pair = AbiValue::Tuple(vec![AbiValue::Bool(true), AbiValue::Uint(U256::from_u64(1))]);
    assert!(pair.type_check(&AbiType::Tuple(vec![AbiType::Bool, AbiType::Uint(256)])));
    assert!(!pair.type_check(&AbiType::Tuple(vec![AbiType::Uint(256), AbiType::Bool])));
    assert!(!pair.type_check(&AbiType::Tuple(vec![AbiType::Bool])));
    assert!(!pair.type_check(&AbiType::Tuple(vec![
        AbiType::Bool,
        AbiType::Uint(256),
        AbiType::Bool
    ])));
}

#[test]
fn lists_are_checked_one_for_one() {
    let tokens = vec![AbiValue::Uint(U256::from_u64(0)), AbiValue::Bool(false)];
    assert!(types_check(&tokens, &vec![AbiType::Uint(256), AbiType::Bool]));
    assert!(!types_check(&tokens, &vec![AbiType::Uint(32)]));
    assert!(!types_check(&tokens, &vec![AbiType::Bool, AbiType::Uint(32)]));
    assert!(items_check(&vec![AbiValue::Bool(true), AbiValue::Bool(false)], &AbiType::Bool));
    assert!(!items_check(&tokens, &AbiType::Bool));
}

#[test]
fn duplicate_gives_an_equal_token() {
    let token = AbiValue::Tuple(vec![
        AbiValue::String("dave".to_string()),
        AbiValue::Array(vec![AbiValue::Bytes(vec![1, 2, 3])]),
        AbiValue::Uint(U256::from_u64(9)),
    ]);
    assert_eq!(token.duplicate(), token);
}

#[test]
fn footprint_counts_words() {
    assert_eq!(AbiValue::Bool(true).footprint(), Some(32));
    assert_eq!(AbiValue::Address(Address { bytes: [0; 20] }).footprint(), Some(32));
    assert_eq!(AbiValue::FixedBytes(vec![]).footprint(), Some(0));
    assert_eq!(AbiValue::FixedBytes(vec![1; 32]).footprint(), Some(32));
    assert_eq!(AbiValue::FixedBytes(vec![1; 33]).footprint(), Some(64));
    assert_eq!(AbiValue::Bytes(vec![]).footprint(), Some(64));
    assert_eq!(AbiValue::Bytes(vec![1; 33]).footprint(), Some(128));
    assert_eq!(AbiValue::String("dave".to_string()).footprint(), Some(96));
    assert_eq!(AbiValue::String("é".to_string()).footprint(), Some(96));
    let list = AbiValue::Array(vec![AbiValue::Bool(true), AbiValue::Bool(false)]);
    assert_eq!(list.footprint(), Some(128));
    let pair = AbiValue::Tuple(vec![AbiValue::Bool(true), AbiValue::Bytes(vec![1])]);
    assert_eq!(pair.footprint(), Some(32 + 32 + 96));
    assert_eq!(footprints(&vec![AbiValue::Bool(true), AbiValue::Bytes(vec![1])]), Some(128));
    assert_eq!(footprints(&vec![]), Some(0));
}

#[test]
fn encodes_static_arguments() {
    let tokens = vec![AbiValue::Uint(U256::from_u64(69)), AbiValue::Bool(true)];
    assert_eq!(encode(&tokens), Some(words(&[0x45, 0x01])));
}

#[test]
fn encodes_an_address_left_padded() {
    let tokens = vec![AbiValue::Address(Address { bytes: [0x11; 20] })];
    let mut expected = vec![0u8; 12];
    expected.extend(vec![0x11u8; 20]);
    assert_eq!(encode(&tokens), Some(expected));
}

#[test]
fn encodes_dynamic_arguments_with_offsets() {
    let tokens = vec![
        AbiValue::Bytes(b"dave".to_vec()),
        AbiValue::Bool(true),
        AbiValue::Array(vec![
            AbiValue::Uint(U256::from_u64(1)),
            AbiValue::Uint(U256::from_u64(2)),
            AbiValue::Uint(U256::from_u64(3)),
        ]),
    ];
    let mut expected = words(&[0x60, 0x01, 0xa0, 0x04]);
    let mut dave = b"dave".to_vec();
    dave.resize(32, 0);
    expected.extend(dave);
    expected.extend(words(&[0x03, 0x01, 0x02, 0x03]));
    assert_eq!(encode(&tokens), Some(expected));
}

#[test]
fn selector_is_the_start_of_the_signature_hash() {
    assert_eq!(baz().selector(), [0xcd, 0xcd, 0x77, 0xc0]);
    assert_eq!(sam().selector(), [0xa5, 0x64, 0x3b, 0xf2]);
}

#[test]
fn call_data_is_selector_then_arguments() {
    let tokens = vec![AbiValue::Uint(U256::from_u64(69)), AbiValue::Bool(true)];
    let mut expected = vec![0xcd, 0xcd, 0x77, 0xc0];
    expected.extend(words(&[0x45, 0x01]));
    assert_eq!(baz().encode_input(&tokens), Ok(expected));
}

#[test]
fn wrong_argument_count_is_an_arity_mismatch() {
    let one = vec![AbiValue::Uint(U256::from_u64(69))];
    assert_eq!(baz().encode_input(&one), Err(CallError::ArityMismatch));
    assert_eq!(baz().encode_input(&vec![]), Err(CallError::ArityMismatch));
}

#[test]
fn wrong_argument_type_is_an_encoding_error() {
    let swapped = vec![AbiValue::Bool(true), AbiValue::Uint(U256::from_u64(69))];
    assert_eq!(baz().encode_input(&swapped), Err(CallError::EncodingError));
}

#[test]
fn frame_call_puts_the_selector_first() {
    assert_eq!(frame_call(&[1, 2, 3, 4], &vec![5, 6]), vec![1, 2, 3, 4, 5, 6]);
    assert_eq!(frame_call(&[1, 2, 3, 4], &vec![]), vec![1, 2, 3, 4]);
}

#[test]
fn selector_prefix_is_compared_byte_by_byte() {
    assert!(starts_with_selector(&[1, 2, 3, 4, 9], &[1, 2, 3, 4]));
    assert!(starts_with_selector(&[1, 2, 3, 4], &[1, 2, 3, 4]));
    assert!(!starts_with_selector(&[1, 2, 3], &[1, 2, 3, 4]));
    assert!(!starts_with_selector(&[1, 2, 3, 5, 9], &[1, 2, 3, 4]));
    assert!(!starts_with_selector(&[], &[0, 0, 0, 0]));
}

#[test]
fn decodes_what_was_encoded() {
    let tokens = vec![
        AbiValue::Bytes(b"dave".to_vec()),
        AbiValue::Bool(true),
        AbiValue::Array(vec![
            AbiValue::Uint(U256::from_u64(1)),
            AbiValue::Uint(U256::from_u64(2)),
            AbiValue::Uint(U256::from_u64(3)),
        ]),
    ];
    let data = sam().encode_input(&tokens).unwrap();
    assert_eq!(sam().decode_input(&data), Ok(tokens));
}

#[test]
fn decode_input_wants_the_selector() {
    let tokens = vec![AbiValue::Uint(U256::from_u64(69)), AbiValue::Bool(true)];
    let mut data = baz().encode_input(&tokens).unwrap();
    data[0] ^= 0xff;
    assert_eq!(baz().decode_input(&data), Err(DecodeError::WrongSelector));
    assert_eq!(baz().decode_input(&[0xcd, 0xcd]), Err(DecodeError::WrongSelector));
}

#[test]
fn decode_rejects_short_data() {
    assert_eq!(decode(&vec![AbiType::Bool], &[]), Err(DecodeError::InvalidData));
    assert_eq!(decode(&vec![AbiType::Uint(256)], &[0u8; 31]), Err(DecodeError::InvalidData));
}

#[test]
fn decode_refuses_types_it_cannot_run_on() {
    let data = [0u8; 64];
    let fixed = AbiType::FixedArray(Box::new(AbiType::Bool), 2);
    assert_eq!(decode(&vec![fixed], &data), Err(DecodeError::UnsupportedType));
    assert_eq!(decode(&vec![AbiType::FixedBytes(33)], &data), Err(DecodeError::UnsupportedType));
    assert_eq!(decode(&vec![AbiType::FixedBytes(0)], &data), Err(DecodeError::UnsupportedType));
    assert_eq!(decode(&vec![AbiType::Tuple(vec![])], &data), Err(DecodeError::UnsupportedType));
    let nested = AbiType::Array(Box::new(AbiType::Tuple(vec![])));
    assert_eq!(decode(&vec![nested], &data), Err(DecodeError::UnsupportedType));
    assert!(!AbiType::FixedBytes(0).is_decodable());
    assert!(AbiType::FixedBytes(32).is_decodable());
    assert!(AbiType::Tuple(vec![AbiType::Bool]).is_decodable());
}

#[test]
fn decode_output_reads_the_declared_outputs() {
    let f = Function {
        name: "isDKIMPublicKeyHashValid".to_string(),
        inputs: vec![AbiType::String, AbiType::FixedBytes(32)],
        outputs: vec![AbiType::Bool],
    };
    assert_eq!(f.decode_output(&word(1)), Ok(vec![AbiValue::Bool(true)]));
    assert_eq!(f.decode_output(&word(0)), Ok(vec![AbiValue::Bool(false)]));
    assert_eq!(f.decode_output(&word(2)), Ok(vec![AbiValue::Bool(false)]));
}

#[test]
fn decode_rejects_lengths_and_offsets_beyond_the_data() {
    let list = || vec![AbiType::Array(Box::new(AbiType::Uint(256)))];
    let mut huge_len = word(0x20);
    huge_len.extend(vec![0u8; 28]);
    huge_len.extend(vec![0xffu8; 4]);
    assert_eq!(decode(&list(), &huge_len), Err(DecodeError::InvalidData));

    let mut far_offset = vec![0u8; 28];
    far_offset.extend(vec![0xffu8; 4]);
    assert_eq!(decode(&list(), &far_offset), Err(DecodeError::InvalidData));

    let wide_offset = vec![0xffu8; 32];
    assert_eq!(decode(&list(), &wide_offset), Err(DecodeError::InvalidData));
    assert_eq!(decode(&vec![AbiType::Bytes], &wide_offset), Err(DecodeError::InvalidData));
    assert_eq!(decode(&vec![AbiType::String], &huge_len), Err(DecodeError::InvalidData));

}

#[test]
fn decode_reads_items_that_share_their_bytes() {
    let nested = vec![AbiType::Array(Box::new(AbiType::Array(Box::new(AbiType::Bool))))];
    let mut shared = word(0x20);
    shared.extend(word(2));
    shared.extend(word(0));
    shared.extend(word(0));
    assert_eq!(
        decode(&nested, &shared),
        Ok(vec![AbiValue::Array(vec![AbiValue::Array(vec![]), AbiValue::Array(vec![])])])
    );
}

#[test]
fn decode_reads_an_empty_array() {
    let list = vec![AbiType::Array(Box::new(AbiType::Uint(256)))];
    let mut data = word(0x20);
    data.extend(word(0));
    assert_eq!(decode(&list, &data), Ok(vec![AbiValue::Array(vec![])]));
    assert_eq!(decode(&vec![], &[]), Ok(vec![]));
}
