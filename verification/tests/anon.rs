use ethabi::Token;
use ethereum_types::{H160, U256};
use precompiles::anon::anonymous::{
    gas, precompile_anonymous_verify, precompile_anonymous_verify_gas, verify, Arguments,
    VERIFY_DEPOSIT_SELECTOR, VERIFY_TRANSFER_SELECTOR, VERIFY_WITHDRAW_SELECTOR,
};
use precompiles::anon::deposit::{Deposit, DEPOSIT_PER_OUTPUT};
use precompiles::anon::ownership::{OwnerShip, OWNERSHIP_PER_FEE};
use precompiles::anon::statement::{conclude, Statement, Verdict};
use precompiles::anon::transfer::{
    Transfer, TransferEntity, TRANSFER_PER_INPUT, TRANSFER_PER_OUTPUT,
};
use precompiles::error::Error;
use precompiles::utils::{AddressFormat, AssetType, FoldingInstance};
use std::cell::RefCell;

fn word(seed: u8) -> [u8; 32] {
    [seed; 32]
}

fn words(count: usize, seed: u8) -> Token {
    Token::Array((0..count).map(|i| Token::FixedBytes(word(seed + i as u8).to_vec())).collect())
}

fn entity_token(version: u64, inputs: usize, outputs: usize, proof: &[u8]) -> Token {
    Token::Tuple(vec![
        Token::Uint(U256::from(version)),
        Token::FixedBytes(word(1).to_vec()),
        Token::FixedBytes(word(2).to_vec()),
        Token::Uint(U256::from(30u64)),
        Token::Address(H160([4u8; 20])),
        Token::FixedBytes(word(5).to_vec()),
        Token::Uint(U256::from(60u64)),
        Token::FixedBytes(word(7).to_vec()),
        words(inputs, 80),
        words(outputs, 90),
        Token::Array(vec![Token::Bytes(vec![10, 11]), Token::Bytes(vec![])]),
        Token::Bytes(proof.to_vec()),
    ])
}

fn call(selector: [u8; 4], tokens: &[Token]) -> Vec<u8> {
    let mut data = selector.to_vec();
    data.extend_from_slice(&ethabi::encode(tokens));
    data
}

fn transfer_call(entities: Vec<Token>) -> Vec<u8> {
    call(VERIFY_TRANSFER_SELECTOR, &[Token::Array(entities)])
}

fn ownership_tokens(asset: Vec<u8>) -> Vec<Token> {
    vec![
        Token::Uint(U256::from(9u64)),
        Token::Uint(U256::from(1234u64)),
        Token::Bytes(asset),
        Token::Bytes(vec![3u8; 32]),
        Token::Bytes(vec![0xaa, 0xbb]),
        Token::Bytes(vec![0xcc]),
        Token::FixedBytes(word(6).to_vec()),
        Token::Bytes(vec![0xdd; 5]),
    ]
}

fn opens(_proof: &Vec<u8>) -> Option<FoldingInstance> {
    Some(FoldingInstance::Secp256k1)
}

fn accepts(_statement: &Statement) -> Verdict {
    Verdict::Accepted
}

#[test]
fn selectors_are_the_published_ones() {
    assert_eq!(VERIFY_DEPOSIT_SELECTOR, [0x29, 0xef, 0xb1, 0x48]);
    assert_eq!(VERIFY_TRANSFER_SELECTOR, [0xd0, 0xb8, 0x51, 0xef]);
    assert_eq!(VERIFY_WITHDRAW_SELECTOR, [0x29, 0x7d, 0xb2, 0x29]);
}

#[test]
fn short_data_has_no_selector() {
    for len in 0..4usize {
        let data = vec![0x29u8; len];
        assert_eq!(gas(&data), Err(Error::WrongSelectorLength));
        assert_eq!(verify(&data, &opens, &accepts), Err(Error::WrongSelectorLength));
        assert_eq!(Arguments::new(&data).err(), Some(Error::WrongSelectorLength));
        assert_eq!(precompile_anonymous_verify(&data, &opens, &accepts), 1);
        assert_eq!(precompile_anonymous_verify_gas(&data), 0);
    }
}

#[test]
fn unknown_selector_is_refused() {
    let data = call([0x29, 0xef, 0xb1, 0x49], &ownership_tokens(vec![1u8; 32]));
    assert_eq!(gas(&data), Err(Error::UnknownSelector));
    assert_eq!(verify(&data, &opens, &accepts), Err(Error::UnknownSelector));
    assert_eq!(precompile_anonymous_verify(&data, &opens, &accepts), 2);
    assert_eq!(precompile_anonymous_verify_gas(&data), 0);
    assert_eq!(gas(&[0, 0, 0, 0]), Err(Error::UnknownSelector));
}

#[test]
fn transfer_decodes_each_entity() {
    let data = ethabi::encode(&[Token::Array(vec![
        entity_token(3, 2, 1, &[1, 2, 3]),
        entity_token(4, 0, 3, &[]),
    ])]);
    let batch = Transfer::new(&data).unwrap();
    assert_eq!(batch.params.len(), 2);
    let first = &batch.params[0];
    assert_eq!(first.root_version, 3);
    assert_eq!(first.root, word(1));
    assert_eq!(first.asset, word(2));
    assert_eq!(first.fee_amount, U256::from(30u64));
    assert_eq!(first.transparent_account, H160([4u8; 20]));
    assert_eq!(first.transparent_asset, word(5));
    assert_eq!(first.transparent_amount, U256::from(60u64));
    assert_eq!(first.hash, word(7));
    assert_eq!(first.nullifiers, vec![word(80), word(81)]);
    assert_eq!(first.commitments, vec![word(90)]);
    assert_eq!(first.memos, vec![vec![10u8, 11u8], vec![]]);
    assert_eq!(first.proof, vec![1u8, 2, 3]);
    let second = &batch.params[1];
    assert_eq!(second.root_version, 4);
    assert_eq!(second.nullifiers, Vec::<[u8; 32]>::new());
    assert_eq!(second.commitments.len(), 3);
    assert_eq!(second.proof, Vec::<u8>::new());
}

#[test]
fn transfer_keeps_the_lower_64_bits_of_the_root_version() {
    let mut fields = match entity_token(0, 1, 1, &[]) {
        Token::Tuple(fields) => fields,
        _ => unreachable!(),
    };
    fields[0] = Token::Uint(U256([5, 1, 0, 0]));
    let data = ethabi::encode(&[Token::Array(vec![Token::Tuple(fields.clone())])]);
    assert_eq!(Transfer::new(&data).unwrap().params[0].root_version, 5);
    fields[0] = Token::Uint(U256([5, 1, 1, 0]));
    let data = ethabi::encode(&[Token::Array(vec![Token::Tuple(fields)])]);
    assert_eq!(Transfer::new(&data).err(), Some(Error::ParseDataFailed));
}

#[test]
fn transfer_refuses_what_is_no_batch() {
    assert_eq!(Transfer::new(&[]).err(), Some(Error::ParseDataFailed));
    assert_eq!(Transfer::new(&[0u8; 31]).err(), Some(Error::ParseDataFailed));
    let mut data = ethabi::encode(&[Token::Array(vec![entity_token(1, 1, 1, &[1])])]);
    data.truncate(data.len() - 40);
    assert_eq!(Transfer::new(&data).err(), Some(Error::ParseDataFailed));
}

#[test]
fn transfer_gas_counts_nullifiers_and_commitments() {
    let data = transfer_call(vec![entity_token(1, 2, 1, &[1]), entity_token(1, 3, 1, &[2, 2])]);
    assert_eq!(gas(&data), Ok(4000 * (2 + 3) + 30000 * (1 + 1)));
    assert_eq!(gas(&data), Ok(80000));
    assert_eq!(precompile_anonymous_verify_gas(&data), 80000);
    assert_eq!(TRANSFER_PER_INPUT, 4000);
    assert_eq!(TRANSFER_PER_OUTPUT, 30000);
}

#[test]
fn transfer_gas_does_not_depend_on_the_payload() {
    let one = transfer_call(vec![entity_token(1, 2, 1, &[1]), entity_token(1, 3, 1, &[2, 2])]);
    let other = transfer_call(vec![
        entity_token(77, 4, 2, &[9; 100]),
        entity_token(78, 1, 0, &[]),
    ]);
    assert_eq!(gas(&one), gas(&other));
    assert_eq!(gas(&one), gas(&one));
}

#[test]
fn empty_transfer_is_free_and_passes() {
    let data = transfer_call(vec![]);
    assert_eq!(gas(&data), Ok(0));
    let asked = RefCell::new(0usize);
    let verifier = |_s: &Statement| {
        *asked.borrow_mut() += 1;
        Verdict::Rejected
    };
    let open = |_p: &Vec<u8>| -> Option<FoldingInstance> { None };
    assert_eq!(verify(&data, &open, &verifier), Ok(()));
    assert_eq!(*asked.borrow(), 0);
    assert_eq!(precompile_anonymous_verify(&data, &open, &verifier), 0);
}

#[test]
fn transfer_hands_a_typed_statement_to_the_verifier() {
    let data = transfer_call(vec![entity_token(3, 2, 1, &[1, 2, 3])]);
    let seen = RefCell::new(Vec::new());
    let opened = RefCell::new(Vec::new());
    let open = |p: &Vec<u8>| {
        opened.borrow_mut().push(p.clone());
        Some(FoldingInstance::Ed25519)
    };
    let verifier = |s: &Statement| {
        if let Statement::Transfer(t) = s {
            seen.borrow_mut().push((
                t.format,
                t.fee,
                t.transparent,
                t.fee_type,
                t.transparent_type,
                t.root_version,
                t.merkle_root,
                t.hash,
                t.nullifiers.clone(),
                t.commitments.clone(),
                t.memos.clone(),
                t.proof.clone(),
            ));
        }
        Verdict::Accepted
    };
    assert_eq!(verify(&data, &open, &verifier), Ok(()));
    assert_eq!(*opened.borrow(), vec![vec![1u8, 2, 3]]);
    let seen = seen.borrow();
    assert_eq!(seen.len(), 1);
    let s = &seen[0];
    assert_eq!(s.0, AddressFormat::ED25519);
    assert_eq!(s.1, 30u128);
    assert_eq!(s.2, 60u128);
    assert_eq!(s.3, AssetType(word(2)));
    assert_eq!(s.4, AssetType(word(5)));
    assert_eq!(s.5, 3u64);
    assert_eq!(s.6, word(1));
    assert_eq!(s.7, word(7));
    assert_eq!(s.8, vec![word(80), word(81)]);
    assert_eq!(s.9, vec![word(90)]);
    assert_eq!(s.10, vec![vec![10u8, 11u8], vec![]]);
    assert_eq!(s.11, vec![1u8, 2, 3]);
}

#[test]
fn transfer_stops_at_the_first_failure() {
    let data = transfer_call(vec![
        entity_token(1, 1, 1, &[1]),
        entity_token(2, 1, 1, &[2]),
        entity_token(3, 1, 1, &[3]),
    ]);
    let asked = RefCell::new(Vec::new());
    let verifier = |s: &Statement| {
        let version = match s {
            Statement::Transfer(t) => t.root_version,
            _ => 0,
        };
        asked.borrow_mut().push(version);
        if version == 2 {
            Verdict::NoParams
        } else if version == 3 {
            Verdict::Rejected
        } else {
            Verdict::Accepted
        }
    };
    assert_eq!(verify(&data, &opens, &verifier), Err(Error::FailedToLoadVerifierParams));
    assert_eq!(*asked.borrow(), vec![1u64, 2u64]);
    assert_eq!(precompile_anonymous_verify(&data, &opens, &verifier), 6);
}

#[test]
fn transfer_proof_that_does_not_open_fails_the_batch() {
    let data = transfer_call(vec![entity_token(1, 1, 1, &[1]), entity_token(2, 1, 1, &[])]);
    let open = |p: &Vec<u8>| if p.is_empty() { None } else { Some(FoldingInstance::Ed25519) };
    assert_eq!(verify(&data, &open, &accepts), Err(Error::ProofDecodeFailed));
}

#[test]
fn transfer_amount_over_128_bits_is_refused() {
    let mut fields = match entity_token(1, 1, 1, &[1]) {
        Token::Tuple(fields) => fields,
        _ => unreachable!(),
    };
    fields[3] = Token::Uint(U256([0, 0, 1, 0]));
    let data = transfer_call(vec![Token::Tuple(fields)]);
    assert_eq!(gas(&data), Ok(34000));
    let asked = RefCell::new(0usize);
    let open = |_p: &Vec<u8>| {
        *asked.borrow_mut() += 1;
        Some(FoldingInstance::Ed25519)
    };
    assert_eq!(verify(&data, &open, &accepts), Err(Error::ParseDataFailed));
    assert_eq!(*asked.borrow(), 0);
}

#[test]
fn entity_check_maps_each_verdict() {
    let entity = || TransferEntity {
        root_version: 1,
        root: word(1),
        asset: word(2),
        fee_amount: U256::from(1u64),
        transparent_account: H160([0u8; 20]),
        transparent_asset: word(3),
        transparent_amount: U256::from(2u64),
        hash: word(4),
        nullifiers: vec![],
        commitments: vec![],
        memos: vec![],
        proof: vec![1],
    };
    assert_eq!(entity().check(&opens, &|_s: &Statement| Verdict::Accepted), Ok(()));
    assert_eq!(
        entity().check(&opens, &|_s: &Statement| Verdict::Malformed),
        Err(Error::ParseDataFailed)
    );
    assert_eq!(
        entity().check(&opens, &|_s: &Statement| Verdict::NoParams),
        Err(Error::FailedToLoadVerifierParams)
    );
    assert_eq!(
        entity().check(&opens, &|_s: &Statement| Verdict::Rejected),
        Err(Error::ProofVerificationFailed)
    );
}

#[test]
fn verdicts_map_to_results() {
    assert_eq!(conclude(Verdict::Accepted), Ok(()));
    assert_eq!(conclude(Verdict::Malformed), Err(Error::ParseDataFailed));
    assert_eq!(conclude(Verdict::NoParams), Err(Error::FailedToLoadVerifierParams));
    assert_eq!(conclude(Verdict::Rejected), Err(Error::ProofVerificationFailed));
}

#[test]
fn ownership_decodes_the_eight_values() {
    let data = ethabi::encode(&ownership_tokens(vec![1u8; 32]));
    let args = OwnerShip::new(&data).unwrap();
    assert_eq!(args.root_version, 9);
    assert_eq!(args.amount, 1234);
    assert_eq!(args.asset, vec![1u8; 32]);
    assert_eq!(args.nullifier, vec![3u8; 32]);
    assert_eq!(args.proof, vec![0xaa, 0xbb]);
    assert_eq!(args.merkle_root, word(6));
    assert_eq!(args.hash, vec![0xdd; 5]);
}

#[test]
fn ownership_refuses_seven_values_and_wide_numbers() {
    let mut seven = ownership_tokens(vec![1u8; 32]);
    seven.remove(5);
    assert_eq!(OwnerShip::new(&ethabi::encode(&seven)).err(), Some(Error::ParseDataFailed));
    let mut wide = ownership_tokens(vec![1u8; 32]);
    wide[1] = Token::Uint(U256::MAX);
    assert_eq!(OwnerShip::new(&ethabi::encode(&wide)).err(), Some(Error::ParseDataFailed));
    assert_eq!(OwnerShip::new(&[]).err(), Some(Error::ParseDataFailed));
}

#[test]
fn ownership_costs_its_fixed_price() {
    let data = call(VERIFY_WITHDRAW_SELECTOR, &ownership_tokens(vec![1u8; 32]));
    assert_eq!(gas(&data), Ok(75000));
    assert_eq!(OWNERSHIP_PER_FEE, 75000);
    assert_eq!(precompile_anonymous_verify_gas(&data), 75000);
    let bad_asset = call(VERIFY_WITHDRAW_SELECTOR, &ownership_tokens(vec![1u8; 5]));
    assert_eq!(gas(&bad_asset), Ok(75000));
    let mut cut = data.clone();
    cut.truncate(40);
    assert_eq!(gas(&cut), Err(Error::ParseDataFailed));
    assert_eq!(precompile_anonymous_verify_gas(&cut), 0);
}

#[test]
fn ownership_check_follows_the_steps_in_order() {
    let good = call(VERIFY_WITHDRAW_SELECTOR, &ownership_tokens(vec![1u8; 32]));
    let bad_asset = call(VERIFY_WITHDRAW_SELECTOR, &ownership_tokens(vec![1u8; 31]));
    let closed = |_p: &Vec<u8>| -> Option<FoldingInstance> { None };
    assert_eq!(verify(&good, &opens, &accepts), Ok(()));
    assert_eq!(verify(&good, &closed, &accepts), Err(Error::ProofDecodeFailed));
    assert_eq!(verify(&bad_asset, &closed, &accepts), Err(Error::ProofDecodeFailed));
    assert_eq!(verify(&bad_asset, &opens, &accepts), Err(Error::ParseDataFailed));
    assert_eq!(
        verify(&good, &opens, &|_s: &Statement| Verdict::Rejected),
        Err(Error::ProofVerificationFailed)
    );
    assert_eq!(precompile_anonymous_verify(&good, &opens, &accepts), 0);
    assert_eq!(precompile_anonymous_verify(&good, &closed, &accepts), 5);
    assert_eq!(precompile_anonymous_verify(&bad_asset, &opens, &accepts), 3);
    assert_eq!(precompile_anonymous_verify(&good, &opens, &|_s: &Statement| Verdict::Rejected), 4);
}

#[test]
fn ownership_statement_is_typed() {
    let good = call(VERIFY_WITHDRAW_SELECTOR, &ownership_tokens(vec![1u8; 32]));
    let seen = RefCell::new(None);
    let verifier = |s: &Statement| {
        if let Statement::Ownership(o) = s {
            *seen.borrow_mut() = Some((
                o.format,
                o.root_version,
                o.amount,
                o.asset,
                o.nullifier.clone(),
                o.merkle_root,
                o.hash.clone(),
                o.proof.clone(),
            ));
        }
        Verdict::Accepted
    };
    assert_eq!(verify(&good, &opens, &verifier), Ok(()));
    assert_eq!(
        *seen.borrow(),
        Some((
            AddressFormat::SECP256K1,
            9u64,
            1234u128,
            AssetType([1u8; 32]),
            vec![3u8; 32],
            word(6),
            vec![0xdd; 5],
            vec![0xaa, 0xbb]
        ))
    );
}

fn deposit_tokens(outputs: usize, amounts: usize) -> Vec<Token> {
    vec![
        words(2, 1),
        words(outputs, 10),
        Token::Array((0..amounts).map(|i| Token::Uint(U256::from(i as u64 + 1))).collect()),
        Token::Array(vec![Token::Bytes(vec![1]), Token::Bytes(vec![2, 2])]),
        Token::Array(vec![Token::Bytes(vec![]), Token::Bytes(vec![3])]),
        words(2, 30),
    ]
}

#[test]
fn deposit_decodes_six_lists() {
    let args = Deposit::new(&ethabi::encode(&deposit_tokens(2, 2))).unwrap();
    assert_eq!(args.assets, vec![word(1), word(2)]);
    assert_eq!(args.outputs, vec![word(10), word(11)]);
    assert_eq!(args.amounts, vec![1u128, 2u128]);
    assert_eq!(args.proofs, vec![vec![1u8], vec![2u8, 2u8]]);
    assert_eq!(args.memos, vec![vec![], vec![3u8]]);
    assert_eq!(args.hashes, vec![word(30), word(31)]);
    assert!(args.aligned());
    assert_eq!(Deposit::new(&[1, 2, 3]).err(), Some(Error::ParseDataFailed));
}

#[test]
fn deposit_price_counts_outputs() {
    let data = call(VERIFY_DEPOSIT_SELECTOR, &deposit_tokens(2, 2));
    assert_eq!(gas(&data), Ok(2 * DEPOSIT_PER_OUTPUT));
    let none = call(
        VERIFY_DEPOSIT_SELECTOR,
        &[
            words(0, 0),
            words(0, 0),
            Token::Array(vec![]),
            Token::Array(vec![]),
            Token::Array(vec![]),
            words(0, 0),
        ],
    );
    assert_eq!(gas(&none), Ok(0));
    assert_eq!(verify(&none, &opens, &accepts), Ok(()));
}

#[test]
fn deposit_lists_must_be_of_one_length() {
    let uneven = call(VERIFY_DEPOSIT_SELECTOR, &deposit_tokens(3, 2));
    let asked = RefCell::new(0usize);
    let verifier = |_s: &Statement| {
        *asked.borrow_mut() += 1;
        Verdict::Accepted
    };
    assert_eq!(gas(&uneven), Ok(3 * DEPOSIT_PER_OUTPUT));
    assert_eq!(verify(&uneven, &opens, &verifier), Err(Error::WrongLengthOfArguments));
    assert_eq!(*asked.borrow(), 0);
    assert_eq!(precompile_anonymous_verify(&uneven, &opens, &verifier), 8);
    let even = call(VERIFY_DEPOSIT_SELECTOR, &deposit_tokens(2, 2));
    assert_eq!(verify(&even, &opens, &verifier), Ok(()));
    assert_eq!(*asked.borrow(), 1);
    assert_eq!(
        verify(&even, &opens, &|_s: &Statement| Verdict::Rejected),
        Err(Error::ProofVerificationFailed)
    );
}

#[test]
fn arguments_carry_the_operation_of_the_selector() {
    let t = Arguments::new(&transfer_call(vec![])).unwrap();
    assert!(matches!(t, Arguments::Transfer(_)));
    let o = Arguments::new(&call(VERIFY_WITHDRAW_SELECTOR, &ownership_tokens(vec![]))).unwrap();
    assert!(matches!(o, Arguments::OwnerShip(_)));
    let d = Arguments::new(&call(VERIFY_DEPOSIT_SELECTOR, &deposit_tokens(1, 1))).unwrap();
    assert!(matches!(d, Arguments::Deposit(_)));
    assert_eq!(o.gas(), 75000);
    assert_eq!(t.gas(), 0);
    assert_eq!(d.gas(), 30000);
}

#[test]
fn data_of_one_operation_does_not_decode_under_another_selector() {
    let data = call(VERIFY_TRANSFER_SELECTOR, &ownership_tokens(vec![1u8; 32]));
    assert_eq!(gas(&data), Err(Error::ParseDataFailed));
    assert_eq!(precompile_anonymous_verify(&data, &opens, &accepts), 3);
}

#[test]
fn repeated_calls_agree() {
    let data = transfer_call(vec![entity_token(1, 2, 1, &[1]), entity_token(2, 0, 4, &[7])]);
    assert_eq!(gas(&data), gas(&data));
    assert_eq!(verify(&data, &opens, &accepts), verify(&data, &opens, &accepts));
    assert_eq!(Arguments::new(&data), Arguments::new(&data));
    let cut = &data[..data.len() - 1];
    assert_eq!(Arguments::new(cut), Arguments::new(cut));
    assert_eq!(
        precompile_anonymous_verify(cut, &opens, &accepts),
        precompile_anonymous_verify(cut, &opens, &accepts)
    );
}
