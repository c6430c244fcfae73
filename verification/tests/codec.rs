use ethabi::Token;
use ethereum_types::{H160, U256};
use precompiles::error::Error;
use precompiles::utils::{
    bytes_asset, check_address_format_from_folding, into_address, into_bytes, into_bytes32,
    into_bytes32_array, into_bytes_array, into_uint, into_uint256, into_uint256_array,
    into_uint_array, join_bytes32, split_bytes32, AddressFormat, AssetType, FoldingInstance,
    ASSET_TYPE_LENGTH,
};

fn row(seed: u8) -> [u8; 32] {
    let mut out = [0u8; 32];
    for (i, b) in out.iter_mut().enumerate() {
        *b = seed.wrapping_add(i as u8);
    }
    out
}

#[test]
fn bytes32_takes_exactly_32_fixed_bytes() {
    assert_eq!(into_bytes32(Some(Token::FixedBytes(row(7).to_vec()))), Ok(row(7)));
}

#[test]
fn bytes32_refuses_other_lengths() {
    assert_eq!(into_bytes32(Some(Token::FixedBytes(vec![1u8; 31]))), Err(Error::ParseDataFailed));
    assert_eq!(into_bytes32(Some(Token::FixedBytes(vec![1u8; 33]))), Err(Error::ParseDataFailed));
    assert_eq!(into_bytes32(Some(Token::FixedBytes(vec![]))), Err(Error::ParseDataFailed));
}

#[test]
fn bytes32_refuses_absent_and_other_shapes() {
    assert_eq!(into_bytes32(None), Err(Error::ParseDataFailed));
    assert_eq!(into_bytes32(Some(Token::Bytes(row(1).to_vec()))), Err(Error::ParseDataFailed));
    assert_eq!(into_bytes32(Some(Token::Uint(U256::from(5u64)))), Err(Error::ParseDataFailed));
}

#[test]
fn bytes32_array_converts_each_item() {
    let token = Token::Array(vec![
        Token::FixedBytes(row(1).to_vec()),
        Token::FixedBytes(row(2).to_vec()),
    ]);
    assert_eq!(into_bytes32_array(Some(token)), Ok(vec![row(1), row(2)]));
    assert_eq!(into_bytes32_array(Some(Token::Array(vec![]))), Ok(vec![]));
}

#[test]
fn bytes32_array_fails_on_one_bad_item() {
    let token = Token::Array(vec![
        Token::FixedBytes(row(1).to_vec()),
        Token::FixedBytes(vec![0u8; 4]),
    ]);
    assert_eq!(into_bytes32_array(Some(token)), Err(Error::ParseDataFailed));
    assert_eq!(into_bytes32_array(Some(Token::FixedBytes(row(1).to_vec()))), Err(Error::ParseDataFailed));
    assert_eq!(into_bytes32_array(None), Err(Error::ParseDataFailed));
}

#[test]
fn address_is_handed_out() {
    let a = H160([9u8; 20]);
    assert_eq!(into_address(Some(Token::Address(a))), Ok(a));
    assert_eq!(into_address(Some(Token::Bool(true))), Err(Error::ParseDataFailed));
    assert_eq!(into_address(None), Err(Error::ParseDataFailed));
}

#[test]
fn uint_fits_128_bits() {
    assert_eq!(into_uint(Some(Token::Uint(U256::from(0u64)))), Ok(0));
    assert_eq!(into_uint(Some(Token::Uint(U256::from(u128::MAX)))), Ok(u128::MAX));
    assert_eq!(
        into_uint(Some(Token::Uint(U256([7, 3, 0, 0])))),
        Ok(7u128 + (3u128 << 64))
    );
}

#[test]
fn uint_over_128_bits_is_refused() {
    assert_eq!(into_uint(Some(Token::Uint(U256([0, 0, 1, 0])))), Err(Error::ParseDataFailed));
    assert_eq!(into_uint(Some(Token::Uint(U256([0, 0, 0, 1])))), Err(Error::ParseDataFailed));
    assert_eq!(into_uint(Some(Token::Uint(U256::MAX))), Err(Error::ParseDataFailed));
}

#[test]
fn uint_refuses_absent_and_other_shapes() {
    assert_eq!(into_uint(None), Err(Error::ParseDataFailed));
    assert_eq!(into_uint(Some(Token::Int(U256::from(1u64)))), Err(Error::ParseDataFailed));
}

#[test]
fn uint256_keeps_the_whole_number() {
    assert_eq!(into_uint256(Some(Token::Uint(U256::MAX))), Ok(U256::MAX));
    assert_eq!(into_uint256(Some(Token::Bytes(vec![]))), Err(Error::ParseDataFailed));
    assert_eq!(into_uint256(None), Err(Error::ParseDataFailed));
}

#[test]
fn uint_arrays_convert_each_item() {
    let token = Token::Array(vec![Token::Uint(U256::from(1u64)), Token::Uint(U256::from(2u64))]);
    assert_eq!(into_uint_array(Some(token.clone())), Ok(vec![1u128, 2u128]));
    assert_eq!(into_uint256_array(Some(token)), Ok(vec![U256::from(1u64), U256::from(2u64)]));
    let wide = Token::Array(vec![Token::Uint(U256::from(1u64)), Token::Uint(U256::MAX)]);
    assert_eq!(into_uint_array(Some(wide.clone())), Err(Error::ParseDataFailed));
    assert_eq!(into_uint256_array(Some(wide)), Ok(vec![U256::from(1u64), U256::MAX]));
    let mixed = Token::Array(vec![Token::Uint(U256::from(1u64)), Token::Bool(false)]);
    assert_eq!(into_uint_array(Some(mixed.clone())), Err(Error::ParseDataFailed));
    assert_eq!(into_uint256_array(Some(mixed)), Err(Error::ParseDataFailed));
}

#[test]
fn bytes_are_handed_out_whole() {
    assert_eq!(into_bytes(Some(Token::Bytes(vec![1, 2, 3]))), Ok(vec![1, 2, 3]));
    assert_eq!(into_bytes(Some(Token::Bytes(vec![]))), Ok(vec![]));
    assert_eq!(into_bytes(Some(Token::FixedBytes(vec![1, 2, 3]))), Err(Error::ParseDataFailed));
    assert_eq!(into_bytes(None), Err(Error::ParseDataFailed));
}

#[test]
fn bytes_array_converts_each_item() {
    let token = Token::Array(vec![Token::Bytes(vec![1]), Token::Bytes(vec![]), Token::Bytes(vec![2, 3])]);
    assert_eq!(into_bytes_array(Some(token)), Ok(vec![vec![1], vec![], vec![2, 3]]));
    let bad = Token::Array(vec![Token::Bytes(vec![1]), Token::String("x".to_string())]);
    assert_eq!(into_bytes_array(Some(bad)), Err(Error::ParseDataFailed));
    assert_eq!(into_bytes_array(Some(Token::Tuple(vec![]))), Err(Error::ParseDataFailed));
}

#[test]
fn join_lays_rows_end_to_end() {
    let joined = join_bytes32(&[row(1), row(100)]);
    assert_eq!(joined.len(), 64);
    assert_eq!(&joined[..32], &row(1)[..]);
    assert_eq!(&joined[32..], &row(100)[..]);
    assert_eq!(join_bytes32(&[]), Vec::<u8>::new());
}

#[test]
fn split_cuts_whole_rows_and_leaves_the_rest() {
    let mut bytes = join_bytes32(&[row(1), row(2), row(3)]);
    assert_eq!(split_bytes32(&bytes), Ok(vec![row(1), row(2), row(3)]));
    bytes.extend_from_slice(&[9u8; 31]);
    assert_eq!(split_bytes32(&bytes), Ok(vec![row(1), row(2), row(3)]));
    assert_eq!(split_bytes32(&vec![5u8; 31]), Ok(vec![]));
    assert_eq!(split_bytes32(&vec![]), Ok(vec![]));
}

#[test]
fn split_inverts_join() {
    let rows = vec![row(11), row(22), row(33), row(44)];
    assert_eq!(split_bytes32(&join_bytes32(&rows)), Ok(rows));
}

#[test]
fn asset_takes_exactly_its_length() {
    assert_eq!(ASSET_TYPE_LENGTH, 32);
    assert_eq!(bytes_asset(&row(3)), Ok(AssetType(row(3))));
    assert_eq!(bytes_asset(&[0u8; 31]), Err(Error::ParseDataFailed));
    assert_eq!(bytes_asset(&[0u8; 33]), Err(Error::ParseDataFailed));
    assert_eq!(bytes_asset(&[]), Err(Error::ParseDataFailed));
}

#[test]
fn address_format_follows_the_folding_instance() {
    assert_eq!(check_address_format_from_folding(&FoldingInstance::Ed25519), AddressFormat::ED25519);
    assert_eq!(
        check_address_format_from_folding(&FoldingInstance::Secp256k1),
        AddressFormat::SECP256K1
    );
}

#[test]
fn error_codes_are_fixed() {
    let all = [
        Error::WrongSelectorLength,
        Error::UnknownSelector,
        Error::ParseDataFailed,
        Error::ProofVerificationFailed,
        Error::ProofDecodeFailed,
        Error::FailedToLoadVerifierParams,
        Error::FoldingDecodeFailed,
        Error::WrongLengthOfArguments,
        Error::UnsupportInputsOutputs,
        Error::InputOutOfBound,
        Error::SerializeError,
        Error::DeserializeError,
        Error::DecodeError,
        Error::ExecError,
    ];
    for (i, e) in all.iter().enumerate() {
        assert_eq!(e.code(), (i + 1) as u8);
    }
}
