//! Tests for the wire codec: decoding instruction buffers.

use counter_program::errors::DecodeError;
use counter_program::instruction::CounterInstruction;

#[test]
fn unpack_initialize_nine_bytes() {
    let data = [0u8, 1, 0, 0, 0, 0, 0, 0, 0];
    assert_eq!(
        CounterInstruction::unpack(&data),
        Ok(CounterInstruction::InitializeCounter { initial_value: 1 })
    );
}

#[test]
fn unpack_initialize_little_endian_value() {
    let data = [0u8, 0x2a, 0, 0, 0, 0, 0, 0, 0x01];
    let expected = 0x2a_u64 | (0x01_u64 << 56);
    assert_eq!(
        CounterInstruction::unpack(&data),
        Ok(CounterInstruction::InitializeCounter { initial_value: expected })
    );
}

#[test]
fn unpack_initialize_max_value() {
    let data = [0u8, 0xff, 0xff, 0xff, 0xff, 0xff, 0xff, 0xff, 0xff];
    assert_eq!(
        CounterInstruction::unpack(&data),
        Ok(CounterInstruction::InitializeCounter { initial_value: u64::MAX })
    );
}

#[test]
fn unpack_initialize_too_short_is_malformed() {
    assert_eq!(CounterInstruction::unpack(&[0u8]), Err(DecodeError::Malformed));
    assert_eq!(CounterInstruction::unpack(&[0u8, 1, 2, 3]), Err(DecodeError::Malformed));
}

#[test]
fn unpack_initialize_too_long_is_malformed() {
    let data = [0u8, 1, 0, 0, 0, 0, 0, 0, 0, 0];
    assert_eq!(CounterInstruction::unpack(&data), Err(DecodeError::Malformed));
}

#[test]
fn unpack_increment_bare() {
    assert_eq!(CounterInstruction::unpack(&[1u8]), Ok(CounterInstruction::IncrementCounter));
}

#[test]
fn unpack_increment_ignores_trailing_bytes() {
    assert_eq!(
        CounterInstruction::unpack(&[1u8, 2, 3, 4, 5, 6, 7, 8, 9]),
        Ok(CounterInstruction::IncrementCounter)
    );
}

#[test]
fn unpack_empty_buffer() {
    assert_eq!(CounterInstruction::unpack(&[]), Err(DecodeError::Empty));
}

#[test]
fn unpack_unknown_discriminant() {
    assert_eq!(CounterInstruction::unpack(&[2u8]), Err(DecodeError::UnknownOperation));
    assert_eq!(
        CounterInstruction::unpack(&[255u8, 1, 0, 0, 0, 0, 0, 0, 0]),
        Err(DecodeError::UnknownOperation)
    );
}

#[test]
fn unpack_accepts_borsh_encoded_operand() {
    // The initialize operand is laid out exactly as borsh lays out a u64.
    let mut data = vec![0u8];
    data.extend_from_slice(&borsh::to_vec(&123456789u64).unwrap());
    assert_eq!(
        CounterInstruction::unpack(&data),
        Ok(CounterInstruction::InitializeCounter { initial_value: 123456789 })
    );
}
