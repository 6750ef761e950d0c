//! The account state codec: the durable counter value and its fixed
//! eight-byte little-endian layout inside an account's byte region.

use vstd::bytes::{spec_u64_from_le_bytes, spec_u64_to_le_bytes, u64_from_le_bytes, u64_to_le_bytes};
use vstd::bytes::lemma_auto_spec_u64_to_from_le_bytes;
use vstd::prelude::*;
use vstd::slice::slice_subrange;

use crate::errors::{DecodeError, EncodeError};

verus! {

/// The durable counter state persisted in the target account's region.
#[derive(Clone, Copy, Debug, PartialEq, Eq, Structural)]
pub struct CounterAccount {
    /// The counter value.
    pub count: u64,
}

/// What reading a stored region yields: the little-endian value of the
/// first eight bytes, trailing bytes tolerated and ignored; `Truncated`
/// on a region shorter than eight bytes.
pub open spec fn spec_read(data: Seq<u8>) -> Result<CounterAccount, DecodeError> {
    if data.len() >= 8 {
        Ok(CounterAccount { count: spec_u64_from_le_bytes(data.subrange(0, 8)) })
    } else {
        Err(DecodeError::Truncated)
    }
}

/// What writing a state into a region yields: the eight little-endian
/// bytes of the count followed by the region's remaining bytes untouched;
/// `InsufficientSpace` on a region shorter than eight bytes.
pub open spec fn spec_write(state: CounterAccount, data: Seq<u8>) -> Result<Seq<u8>, EncodeError> {
    if data.len() >= 8 {
        Ok(spec_u64_to_le_bytes(state.count) + data.subrange(8, data.len() as int))
    } else {
        Err(EncodeError::InsufficientSpace)
    }
}

impl CounterAccount {
    /// Decode the counter from an account's byte region.
    pub fn read(data: &[u8]) -> (r: Result<CounterAccount, DecodeError>)
        ensures
            r == spec_read(data@),
    {
        if data.len() >= 8 {
            let head = slice_subrange(data, 0, 8);
            let count = u64_from_le_bytes(head);
            Ok(CounterAccount { count })
        } else {
            Err(DecodeError::Truncated)
        }
    }

    /// Encode the counter into the first eight bytes of an account's byte
    /// region, leaving any remaining capacity untouched.
    pub fn write(&self, data: &mut Vec<u8>) -> (r: Result<(), EncodeError>)
        ensures
            old(data)@.len() >= 8 ==> r == Ok::<(), EncodeError>(())
                && Ok::<Seq<u8>, EncodeError>(final(data)@) == spec_write(*self, old(data)@),
            old(data)@.len() < 8 ==> r == Err::<(), EncodeError>(EncodeError::InsufficientSpace)
                && final(data)@ == old(data)@,
    {
        if data.len() < 8 {
            return Err(EncodeError::InsufficientSpace);
        }
        let bytes = u64_to_le_bytes(self.count);
        let mut i: usize = 0;
        while i < 8
            invariant
                i <= 8,
                bytes@ == spec_u64_to_le_bytes(self.count),
                bytes@.len() == 8,
                data@.len() == old(data)@.len(),
                old(data)@.len() >= 8,
                forall|j: int| 0 <= j < i ==> data@[j] == bytes@[j],
                forall|j: int| i <= j < data@.len() ==> data@[j] == old(data)@[j],
            decreases 8 - i,
        {
            let b = bytes[i];
            data[i] = b;
            i += 1;
        }
        proof {
            assert(data@ =~= spec_u64_to_le_bytes(self.count)
                + old(data)@.subrange(8, old(data)@.len() as int));
        }
        Ok(())
    }
}

/// Law: writing the state read from an eight-byte region reproduces the
/// region exactly.
pub proof fn lemma_read_then_write(data: Seq<u8>)
    requires
        data.len() == 8,
    ensures
        spec_read(data) == Ok::<CounterAccount, DecodeError>(
            CounterAccount { count: spec_u64_from_le_bytes(data) },
        ),
        spec_write(CounterAccount { count: spec_u64_from_le_bytes(data) }, data)
            == Ok::<Seq<u8>, EncodeError>(data),
{
    lemma_auto_spec_u64_to_from_le_bytes();
    assert(data.subrange(0, 8) =~= data);
    assert(spec_u64_to_le_bytes(spec_u64_from_le_bytes(data)) + data.subrange(8, 8) =~= data);
}

/// Law: reading back a region the state was written into yields that same
/// state, whatever the region held before.
pub proof fn lemma_write_then_read(state: CounterAccount, data: Seq<u8>)
    requires
        data.len() >= 8,
    ensures
        spec_write(state, data) is Ok,
        spec_read(spec_write(state, data)->Ok_0) == Ok::<CounterAccount, DecodeError>(state),
{
    lemma_auto_spec_u64_to_from_le_bytes();
    let written = spec_write(state, data)->Ok_0;
    assert(written.subrange(0, 8) =~= spec_u64_to_le_bytes(state.count));
}

} // verus!
