//! The wire codec: decoding the opaque instruction buffer into a typed
//! operation.
//!
//! Byte 0 is the discriminant. Discriminant 0 must be followed by exactly
//! eight little-endian bytes giving the initial counter value; discriminant
//! 1 takes no operands and tolerates any trailing bytes.

use vstd::bytes::{spec_u64_from_le_bytes, u64_from_le_bytes};
use vstd::prelude::*;
use vstd::slice::slice_subrange;

use crate::errors::DecodeError;

verus! {

/// A typed operation, constructed per call and discarded after dispatch.
#[derive(Clone, Copy, Debug, PartialEq, Eq, Structural)]
pub enum CounterInstruction {
    /// Create the counter account and store a starting value in it.
    InitializeCounter {
        /// The value the freshly created counter starts at.
        initial_value: u64,
    },
    /// Add one to the stored counter value.
    IncrementCounter,
}

/// What decoding a wire buffer yields: an empty buffer is `Empty`;
/// discriminant 0 needs a nine-byte buffer whose tail is the little-endian
/// initial value, any other length being `Malformed`; discriminant 1 is
/// `IncrementCounter` whatever trails it; any other discriminant is
/// `UnknownOperation`.
pub open spec fn spec_unpack(input: Seq<u8>) -> Result<CounterInstruction, DecodeError> {
    if input.len() == 0 {
        Err(DecodeError::Empty)
    } else if input[0] == 0 {
        if input.len() == 9 {
            Ok(CounterInstruction::InitializeCounter {
                initial_value: spec_u64_from_le_bytes(input.subrange(1, 9)),
            })
        } else {
            Err(DecodeError::Malformed)
        }
    } else if input[0] == 1 {
        Ok(CounterInstruction::IncrementCounter)
    } else {
        Err(DecodeError::UnknownOperation)
    }
}

impl CounterInstruction {
    /// Decode a wire buffer into a typed operation. Pure: no side effects.
    pub fn unpack(input: &[u8]) -> (r: Result<Self, DecodeError>)
        ensures
            r == spec_unpack(input@),
    {
        if input.len() == 0 {
            return Err(DecodeError::Empty);
        }
        let variant = input[0];
        if variant == 0 {
            if input.len() == 9 {
                let operand = slice_subrange(input, 1, 9);
                let initial_value = u64_from_le_bytes(operand);
                Ok(CounterInstruction::InitializeCounter { initial_value })
            } else {
                Err(DecodeError::Malformed)
            }
        } else if variant == 1 {
            Ok(CounterInstruction::IncrementCounter)
        } else {
            Err(DecodeError::UnknownOperation)
        }
    }
}

/// Law: a buffer with discriminant 0 decodes to `InitializeCounter` with
/// the little-endian value of bytes 1..9 exactly when the buffer is nine
/// bytes long; with any other length it fails as `Malformed`.
pub proof fn lemma_unpack_initialize(input: Seq<u8>)
    requires
        input.len() > 0,
        input[0] == 0,
    ensures
        input.len() == 9 ==> spec_unpack(input) == Ok::<CounterInstruction, DecodeError>(
            CounterInstruction::InitializeCounter {
                initial_value: spec_u64_from_le_bytes(input.subrange(1, 9)),
            },
        ),
        input.len() != 9 ==> spec_unpack(input) == Err::<CounterInstruction, DecodeError>(
            DecodeError::Malformed,
        ),
{
}

/// Law: any buffer whose first byte is 1 decodes to `IncrementCounter`,
/// regardless of how many bytes trail the discriminant.
pub proof fn lemma_unpack_increment(input: Seq<u8>)
    requires
        input.len() > 0,
        input[0] == 1,
    ensures
        spec_unpack(input) == Ok::<CounterInstruction, DecodeError>(
            CounterInstruction::IncrementCounter,
        ),
{
}

} // verus!
