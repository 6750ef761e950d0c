//! Tests for the account state codec: the fixed eight-byte little-endian
//! counter layout.

use counter_program::errors::{DecodeError, EncodeError};
use counter_program::state::CounterAccount;

#[test]
fn read_exact_region() {
    let data = [5u8, 0, 0, 0, 0, 0, 0, 0];
    assert_eq!(CounterAccount::read(&data), Ok(CounterAccount { count: 5 }));
}

#[test]
fn read_little_endian_order() {
    let data = [0x01u8, 0x02, 0, 0, 0, 0, 0, 0];
    assert_eq!(CounterAccount::read(&data), Ok(CounterAccount { count: 0x0201 }));
}

#[test]
fn read_ignores_trailing_bytes() {
    let data = [7u8, 0, 0, 0, 0, 0, 0, 0, 0xaa, 0xbb];
    assert_eq!(CounterAccount::read(&data), Ok(CounterAccount { count: 7 }));
}

#[test]
fn read_short_region_is_truncated() {
    assert_eq!(CounterAccount::read(&[]), Err(DecodeError::Truncated));
    assert_eq!(CounterAccount::read(&[1u8, 2, 3, 4, 5, 6, 7]), Err(DecodeError::Truncated));
}

#[test]
fn write_exact_bytes() {
    let state = CounterAccount { count: 0x0807060504030201 };
    let mut data = vec![0u8; 8];
    assert_eq!(state.write(&mut data), Ok(()));
    assert_eq!(data, vec![1u8, 2, 3, 4, 5, 6, 7, 8]);
}

#[test]
fn write_leaves_trailing_bytes_untouched() {
    let state = CounterAccount { count: 9 };
    let mut data = vec![0xffu8; 12];
    assert_eq!(state.write(&mut data), Ok(()));
    assert_eq!(data, vec![9u8, 0, 0, 0, 0, 0, 0, 0, 0xff, 0xff, 0xff, 0xff]);
}

#[test]
fn write_short_region_fails_unchanged() {
    let state = CounterAccount { count: 9 };
    let mut data = vec![3u8; 7];
    assert_eq!(state.write(&mut data), Err(EncodeError::InsufficientSpace));
    assert_eq!(data, vec![3u8; 7]);
}

#[test]
fn round_trip_read_then_write() {
    let data = [0xdeu8, 0xad, 0xbe, 0xef, 0x01, 0x02, 0x03, 0x04];
    let state = CounterAccount::read(&data).unwrap();
    let mut out = vec![0u8; 8];
    assert_eq!(state.write(&mut out), Ok(()));
    assert_eq!(out.as_slice(), &data);
}

#[test]
fn round_trip_write_then_read() {
    let state = CounterAccount { count: 0x1234567890abcdef };
    let mut data = vec![0u8; 8];
    assert_eq!(state.write(&mut data), Ok(()));
    assert_eq!(CounterAccount::read(&data), Ok(state));
}

#[test]
fn write_matches_borsh_layout() {
    // The stored layout is exactly borsh's serialization of a u64.
    let state = CounterAccount { count: 987654321 };
    let mut data = vec![0u8; 8];
    assert_eq!(state.write(&mut data), Ok(()));
    assert_eq!(data, borsh::to_vec(&987654321u64).unwrap());
}

#[test]
fn read_matches_borsh_layout() {
    let bytes = borsh::to_vec(&u64::MAX).unwrap();
    assert_eq!(CounterAccount::read(&bytes), Ok(CounterAccount { count: u64::MAX }));
}
