use ethabi::Token;
use ethereum_types::U256;
use precompiles::anemoi::{
    compute, gas, precompile_anemoi, precompile_anemoi_gas, Arguments, Jive4, SaltIndex,
    ANEMOI_EVAL_4, ANEMOI_JIVE_254_SALTS_SELECTOR, ANEMOI_JIVE_4_SELECTOR, ANEMOI_SALT_GAS, SALTS,
};
use precompiles::error::Error;
use std::cell::RefCell;

fn jive_call(x0: u8, x1: u8, y0: u8, y1: u8) -> Vec<u8> {
    let mut data = ANEMOI_JIVE_4_SELECTOR.to_vec();
    data.extend_from_slice(&ethabi::encode(&[
        Token::FixedBytes(vec![x0; 32]),
        Token::FixedBytes(vec![x1; 32]),
        Token::FixedBytes(vec![y0; 32]),
        Token::FixedBytes(vec![y1; 32]),
    ]));
    data
}

fn salt_call(index: U256) -> Vec<u8> {
    let mut data = ANEMOI_JIVE_254_SALTS_SELECTOR.to_vec();
    data.extend_from_slice(&ethabi::encode(&[Token::Uint(index)]));
    data
}

fn echo(args: &Arguments) -> Option<Vec<u8>> {
    match args {
        Arguments::Jive4(j) => {
            if j.x0[0] == 0xff {
                None
            } else {
                let mut out = vec![0u8; 32];
                out[0] = j.x0[0];
                out[1] = j.x1[0];
                out[2] = j.y0[0];
                out[3] = j.y1[0];
                out[31] = 0x2a;
                Some(out)
            }
        }
        Arguments::Salts(s) => Some(vec![s.index + 1; 32]),
    }
}

#[test]
fn anemoi_selectors_are_the_published_ones() {
    assert_eq!(ANEMOI_JIVE_4_SELECTOR, [0x73, 0x80, 0x82, 0x63]);
    assert_eq!(ANEMOI_JIVE_254_SALTS_SELECTOR, [0xbc, 0x4f, 0x54, 0xce]);
    assert_eq!(SALTS, 64);
}

#[test]
fn anemoi_short_data_has_no_selector() {
    for len in 0..4usize {
        let data = vec![0x73u8; len];
        let mut slot = [5u8; 32];
        assert_eq!(compute(&data, &mut slot, &echo), Err(Error::WrongSelectorLength));
        assert_eq!(slot, [5u8; 32]);
        assert_eq!(gas(&data), Err(Error::WrongSelectorLength));
        assert_eq!(precompile_anemoi(&data, &mut slot, &echo), 1);
        assert_eq!(precompile_anemoi_gas(&data), 0);
    }
}

#[test]
fn anemoi_unknown_selector_is_refused() {
    let mut data = jive_call(1, 2, 3, 4);
    data[3] ^= 1;
    let mut slot = [5u8; 32];
    assert_eq!(compute(&data, &mut slot, &echo), Err(Error::UnknownSelector));
    assert_eq!(slot, [5u8; 32]);
    assert_eq!(gas(&data), Err(Error::UnknownSelector));
    assert_eq!(precompile_anemoi(&data, &mut slot, &echo), 2);
    assert_eq!(precompile_anemoi_gas(&data), 0);
}

#[test]
fn jive_decodes_four_words_in_order() {
    let args = Jive4::new(&jive_call(1, 2, 3, 4)[4..]).unwrap();
    assert_eq!(args, Jive4 { x0: [1; 32], x1: [2; 32], y0: [3; 32], y1: [4; 32] });
    assert_eq!(Jive4::new(&[0u8; 127]).err(), Some(Error::ParseDataFailed));
    assert_eq!(Jive4::new(&[]).err(), Some(Error::ParseDataFailed));
}

#[test]
fn jive_writes_the_evaluators_answer_to_the_slot() {
    let mut slot = [5u8; 32];
    assert_eq!(compute(&jive_call(1, 2, 3, 4), &mut slot, &echo), Ok(()));
    let mut expected = [0u8; 32];
    expected[0] = 1;
    expected[1] = 2;
    expected[2] = 3;
    expected[3] = 4;
    expected[31] = 0x2a;
    assert_eq!(slot, expected);
    let mut again = [9u8; 32];
    assert_eq!(precompile_anemoi(&jive_call(1, 2, 3, 4), &mut again, &echo), 0);
    assert_eq!(again, expected);
}

#[test]
fn jive_value_that_is_no_field_element_fails() {
    let mut slot = [5u8; 32];
    assert_eq!(compute(&jive_call(0xff, 2, 3, 4), &mut slot, &echo), Err(Error::ParseDataFailed));
    assert_eq!(slot, [5u8; 32]);
    assert_eq!(precompile_anemoi(&jive_call(0xff, 2, 3, 4), &mut slot, &echo), 3);
    assert_eq!(slot, [5u8; 32]);
}

#[test]
fn jive_cut_data_fails_before_the_evaluator_is_asked() {
    let asked = RefCell::new(0usize);
    let evaluator = |_a: &Arguments| -> Option<Vec<u8>> {
        *asked.borrow_mut() += 1;
        Some(vec![1u8; 32])
    };
    let mut data = jive_call(1, 2, 3, 4);
    data.truncate(4 + 100);
    let mut slot = [5u8; 32];
    assert_eq!(compute(&data, &mut slot, &evaluator), Err(Error::ParseDataFailed));
    assert_eq!(*asked.borrow(), 0);
    assert_eq!(slot, [5u8; 32]);
}

#[test]
fn salts_take_an_index_below_64() {
    for index in [0u64, 1, 62, 63] {
        let args = SaltIndex::new(&salt_call(U256::from(index))[4..]).unwrap();
        assert_eq!(args, SaltIndex { index: index as u8 });
        let mut slot = [0u8; 32];
        assert_eq!(compute(&salt_call(U256::from(index)), &mut slot, &echo), Ok(()));
        assert_eq!(slot, [index as u8 + 1; 32]);
    }
}

#[test]
fn salts_boundary_is_exactly_at_64() {
    let mut slot = [5u8; 32];
    assert_eq!(compute(&salt_call(U256::from(63u64)), &mut slot, &echo), Ok(()));
    assert_eq!(slot, [64u8; 32]);
    let mut slot = [5u8; 32];
    assert_eq!(
        compute(&salt_call(U256::from(64u64)), &mut slot, &echo),
        Err(Error::InputOutOfBound)
    );
    assert_eq!(slot, [5u8; 32]);
    assert_eq!(precompile_anemoi(&salt_call(U256::from(64u64)), &mut slot, &echo), 10);
    assert_eq!(
        SaltIndex::new(&salt_call(U256::from(u128::MAX))[4..]).err(),
        Some(Error::InputOutOfBound)
    );
    assert_eq!(SaltIndex::new(&salt_call(U256::from(256u64))[4..]).err(), Some(Error::InputOutOfBound));
}

#[test]
fn salts_index_over_128_bits_is_no_number() {
    assert_eq!(SaltIndex::new(&salt_call(U256::MAX)[4..]).err(), Some(Error::ParseDataFailed));
    assert_eq!(SaltIndex::new(&[1, 2]).err(), Some(Error::ParseDataFailed));
}

#[test]
fn anemoi_gas_goes_by_the_selector_alone() {
    assert_eq!(gas(&jive_call(1, 2, 3, 4)), Ok(10));
    assert_eq!(gas(&salt_call(U256::from(3u64))), Ok(400));
    assert_eq!(gas(&ANEMOI_JIVE_4_SELECTOR), Ok(ANEMOI_SALT_GAS));
    assert_eq!(gas(&ANEMOI_JIVE_254_SALTS_SELECTOR), Ok(ANEMOI_EVAL_4));
    assert_eq!(gas(&salt_call(U256::from(64u64))), Ok(400));
    assert_eq!(precompile_anemoi_gas(&jive_call(0xff, 0, 0, 0)), 10);
    assert_eq!(precompile_anemoi_gas(&salt_call(U256::MAX)), 400);
}

#[test]
fn anemoi_short_answer_is_padded_on_the_left() {
    let evaluator = |_a: &Arguments| -> Option<Vec<u8>> { Some(vec![7, 8]) };
    let mut slot = [5u8; 32];
    assert_eq!(compute(&salt_call(U256::from(0u64)), &mut slot, &evaluator), Ok(()));
    let mut expected = [0u8; 32];
    expected[30] = 7;
    expected[31] = 8;
    assert_eq!(slot, expected);
}

#[test]
fn anemoi_repeated_calls_agree() {
    let data = jive_call(9, 8, 7, 6);
    let mut first = [0u8; 32];
    let mut second = [1u8; 32];
    assert_eq!(compute(&data, &mut first, &echo), compute(&data, &mut second, &echo));
    assert_eq!(first, second);
    assert_eq!(gas(&data), gas(&data));
}
