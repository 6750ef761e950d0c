//! The failure taxonomy: every way a single call can go wrong.
//!
//! All errors are local to one call; the host discards the call's effects
//! when one is surfaced, so no error here leaves a partial durable write.

use vstd::prelude::*;

verus! {

/// Failure to decode an instruction buffer or a stored counter region.
#[derive(Clone, Copy, Debug, PartialEq, Eq, Structural)]
pub enum DecodeError {
    /// The instruction buffer is empty: no discriminant byte.
    Empty,
    /// The discriminant byte names no known operation.
    UnknownOperation,
    /// Discriminant 0 was not followed by exactly eight bytes.
    Malformed,
    /// The account's byte region is shorter than the eight bytes the
    /// counter layout requires.
    Truncated,
}

/// Failure to encode the counter into an account's byte region.
#[derive(Clone, Copy, Debug, PartialEq, Eq, Structural)]
pub enum EncodeError {
    /// The destination region holds fewer than eight bytes.
    InsufficientSpace,
}

/// Failure to map the supplied account list to the roles an operation needs.
#[derive(Clone, Copy, Debug, PartialEq, Eq, Structural)]
pub enum ResolverError {
    /// Fewer accounts were supplied than the operation requires.
    MissingAccount,
    /// The target account is not owned by the executing program, so this
    /// program may not mutate its byte region.
    NotOwner,
}

/// Any failure of one call to the instruction processor.
#[derive(Clone, Copy, Debug, PartialEq, Eq, Structural)]
pub enum ProcessError {
    /// The instruction buffer did not decode to an operation.
    Decode(DecodeError),
    /// The supplied accounts did not satisfy the operation's requirements.
    Resolve(ResolverError),
    /// The external account-creation service reported a failure; it is
    /// passed through opaquely, with no local recovery.
    CreationFailed,
    /// The counter already holds the maximum 64-bit value; the account is
    /// left unmodified.
    Overflow,
    /// The target region could not hold the encoded counter. Unreachable
    /// for accounts created with the fixed eight-byte layout; if it occurs
    /// the account-size invariant was violated and the call is abandoned.
    Encode(EncodeError),
}

} // verus!
