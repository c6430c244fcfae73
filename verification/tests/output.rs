use precompiles::error::Error;
use precompiles::output::{price_or_zero, status, write_output, OUTPUT_LENGTH};

#[test]
fn slot_is_32_bytes() {
    assert_eq!(OUTPUT_LENGTH, 32);
}

#[test]
fn result_of_32_bytes_fills_the_slot() {
    let bytes: Vec<u8> = (1..=32).collect();
    let mut slot = [0xffu8; 32];
    write_output(&mut slot, &bytes);
    assert_eq!(slot.to_vec(), bytes);
}

#[test]
fn longer_result_keeps_its_first_32_bytes() {
    let bytes: Vec<u8> = (1..=64).collect();
    let mut slot = [0xffu8; 32];
    write_output(&mut slot, &bytes);
    assert_eq!(slot.to_vec(), (1..=32).collect::<Vec<u8>>());
}

#[test]
fn shorter_result_is_padded_on_the_left() {
    let mut slot = [0xffu8; 32];
    write_output(&mut slot, &[7, 8, 9]);
    let mut expected = [0u8; 32];
    expected[29] = 7;
    expected[30] = 8;
    expected[31] = 9;
    assert_eq!(slot, expected);
    write_output(&mut slot, &[]);
    assert_eq!(slot, [0u8; 32]);
}

#[test]
fn status_is_zero_for_success_and_the_code_else() {
    assert_eq!(status(&Ok::<(), Error>(())), 0);
    assert_eq!(status(&Ok::<Vec<u8>, Error>(vec![1])), 0);
    assert_eq!(status(&Err::<(), Error>(Error::WrongSelectorLength)), 1);
    assert_eq!(status(&Err::<(), Error>(Error::ExecError)), 14);
}

#[test]
fn price_defaults_to_zero() {
    assert_eq!(price_or_zero(Ok(17)), 17);
    assert_eq!(price_or_zero(Err(Error::UnknownSelector)), 0);
}
