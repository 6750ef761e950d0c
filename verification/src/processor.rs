//! The instruction processor: decode the wire buffer, resolve the supplied
//! accounts, apply the state transition, and re-encode the counter.
//!
//! Each call runs synchronously to completion and keeps no state of its
//! own; all durable state lives in the accounts. Initialization needs one
//! piece of outside work, the sub-call to the external account-creation
//! service, so it runs in two halves: [`process_initialize_counter`]
//! resolves the accounts and describes the sub-call as a
//! [`CreateAccountRequest`], the caller performs it against the host, and
//! [`commit_initialize_counter`] then writes the starting value into the
//! freshly created region. Increment involves no outside work and runs to
//! completion in [`process_increment_counter`].

use vstd::bytes::{
    lemma_auto_spec_u64_to_from_le_bytes, spec_u64_from_le_bytes, spec_u64_to_le_bytes,
};
use vstd::prelude::*;

use crate::account::{AccountHandle, AccountView, Identity};
use crate::errors::{DecodeError, ProcessError, ResolverError};
use crate::instruction::{spec_unpack, CounterInstruction};
use crate::resolver::{
    resolve_increment, resolve_initialize, spec_resolve_increment, spec_resolve_initialize,
};
use crate::state::{lemma_write_then_read, spec_read, spec_write, CounterAccount};

verus! {

/// The size in bytes of a counter account's region: the fixed layout.
pub const COUNTER_ACCOUNT_SPACE: u64 = 8;

/// A request to the external account-creation service: create
/// `new_account` with `space` bytes, owned by `owner` and funded by
/// `funder`. The lease the host charges for the region comes from the
/// host's own fee model when the sub-call is made, so no amount stands
/// here.
#[derive(Clone, Copy, Debug, PartialEq, Eq, Structural)]
pub struct CreateAccountRequest {
    /// The account paying for the new region.
    pub funder: Identity,
    /// The address of the account to create.
    pub new_account: Identity,
    /// The byte size of the region to allocate.
    pub space: u64,
    /// The program that will own the created account.
    pub owner: Identity,
}

/// What one dispatch asks of the host.
#[derive(Clone, Copy, Debug, PartialEq, Eq, Structural)]
pub enum ProcessEffect {
    /// The transition is complete; the account bytes hold the new state.
    Committed,
    /// Initialization resolved its accounts and now needs the external
    /// account-creation service. After the host performs `request`,
    /// [`commit_initialize_counter`] stores `initial_value` in the created
    /// region.
    AwaitCreation {
        /// The sub-call the host must perform.
        request: CreateAccountRequest,
        /// The value to store once the region exists.
        initial_value: u64,
    },
}

/// The counter value stored in the target account's region.
pub open spec fn spec_target_count(accounts: Seq<AccountView>) -> u64
    recommends
        accounts.len() >= 1,
        accounts[0].data.len() >= 8,
{
    spec_u64_from_le_bytes(accounts[0].data.subrange(0, 8))
}

/// The increment transition: the account list after the call, paired with
/// the call's result. Resolution, the state codec and the overflow check
/// compose: on any failure the accounts are exactly what they were; on
/// success the target's first eight bytes encode one more than they did,
/// and nothing else changes.
pub open spec fn spec_increment(program_id: Identity, accounts: Seq<AccountView>) -> (
    Seq<AccountView>,
    Result<(), ProcessError>,
) {
    match spec_resolve_increment(program_id, accounts) {
        Err(e) => (accounts, Err(ProcessError::Resolve(e))),
        Ok(()) => match spec_read(accounts[0].data) {
            Err(e) => (accounts, Err(ProcessError::Decode(e))),
            Ok(state) => {
                if state.count == u64::MAX {
                    (accounts, Err(ProcessError::Overflow))
                } else {
                    let updated = CounterAccount { count: (state.count + 1) as u64 };
                    let region = spec_write(updated, accounts[0].data)->Ok_0;
                    (
                        accounts.update(
                            0,
                            AccountView {
                                key: accounts[0].key,
                                owner: accounts[0].owner,
                                is_signer: accounts[0].is_signer,
                                data: region,
                            },
                        ),
                        Ok(()),
                    )
                }
            },
        },
    }
}

/// The planning half of initialization: with at least three accounts
/// supplied, the sub-call to request is fixed by the first two accounts'
/// addresses and the executing program's identity, with the fixed
/// eight-byte layout size.
pub open spec fn spec_plan_initialize(program_id: Identity, accounts: Seq<AccountView>) -> Result<
    CreateAccountRequest,
    ProcessError,
> {
    if spec_resolve_initialize(accounts) is Ok {
        Ok(
            CreateAccountRequest {
                funder: accounts[1].key,
                new_account: accounts[0].key,
                space: COUNTER_ACCOUNT_SPACE,
                owner: program_id,
            },
        )
    } else {
        Err(ProcessError::Resolve(ResolverError::MissingAccount))
    }
}

/// What dispatching an initialization yields: the creation sub-call to
/// perform, carrying the starting value for the commit that follows.
pub open spec fn spec_initialize(
    program_id: Identity,
    accounts: Seq<AccountView>,
    initial_value: u64,
) -> Result<ProcessEffect, ProcessError> {
    match spec_plan_initialize(program_id, accounts) {
        Ok(request) => Ok(ProcessEffect::AwaitCreation { request, initial_value }),
        Err(e) => Err(e),
    }
}

/// The committing half of initialization: the account list after the
/// starting value is encoded into the target's region, paired with the
/// call's result. A region shorter than the fixed layout means the
/// account-size invariant was violated; the accounts are then unchanged.
pub open spec fn spec_commit_initialize(accounts: Seq<AccountView>, initial_value: u64) -> (
    Seq<AccountView>,
    Result<(), ProcessError>,
) {
    if accounts.len() < 1 {
        (accounts, Err(ProcessError::Resolve(ResolverError::MissingAccount)))
    } else {
        match spec_write(CounterAccount { count: initial_value }, accounts[0].data) {
            Err(e) => (accounts, Err(ProcessError::Encode(e))),
            Ok(region) => (
                accounts.update(
                    0,
                    AccountView {
                        key: accounts[0].key,
                        owner: accounts[0].owner,
                        is_signer: accounts[0].is_signer,
                        data: region,
                    },
                ),
                Ok(()),
            ),
        }
    }
}

/// One whole dispatch: decode, then either plan the creation sub-call
/// (initialize) or run the increment transition to completion.
pub open spec fn spec_process(
    program_id: Identity,
    accounts: Seq<AccountView>,
    instruction_data: Seq<u8>,
) -> (Seq<AccountView>, Result<ProcessEffect, ProcessError>) {
    match spec_unpack(instruction_data) {
        Err(e) => (accounts, Err(ProcessError::Decode(e))),
        Ok(CounterInstruction::InitializeCounter { initial_value }) => (
            accounts,
            spec_initialize(program_id, accounts, initial_value),
        ),
        Ok(CounterInstruction::IncrementCounter) => {
            let (post, result) = spec_increment(program_id, accounts);
            (
                post,
                match result {
                    Ok(()) => Ok(ProcessEffect::Committed),
                    Err(e) => Err(e),
                },
            )
        },
    }
}

/// Resolve the accounts initialization needs and describe the sub-call to
/// the external account-creation service. The caller performs the sub-call
/// against the host and then completes the operation with
/// [`commit_initialize_counter`]; a sub-call failure propagates as
/// `CreationFailed` with nothing written.
pub fn process_initialize_counter(
    program_id: &Identity,
    accounts: &Vec<AccountHandle>,
    initial_value: u64,
) -> (r: Result<ProcessEffect, ProcessError>)
    ensures
        r == spec_initialize(*program_id, accounts.deep_view(), initial_value),
{
    match resolve_initialize(accounts) {
        Ok((target, funder, _service)) => Ok(
            ProcessEffect::AwaitCreation {
                request: CreateAccountRequest {
                    funder: funder.key,
                    new_account: target.key,
                    space: COUNTER_ACCOUNT_SPACE,
                    owner: *program_id,
                },
                initial_value,
            },
        ),
        Err(e) => Err(ProcessError::Resolve(e)),
    }
}

/// Complete an initialization after the external service created the
/// target's region: encode the starting value into its first eight bytes.
pub fn commit_initialize_counter(accounts: &mut Vec<AccountHandle>, initial_value: u64) -> (r:
    Result<(), ProcessError>)
    ensures
        ({
            let (post, result) = spec_commit_initialize(old(accounts).deep_view(), initial_value);
            &&& final(accounts).deep_view() == post
            &&& r == result
        }),
{
    if accounts.len() < 1 {
        return Err(ProcessError::Resolve(ResolverError::MissingAccount));
    }
    let state = CounterAccount { count: initial_value };
    let target = &mut accounts[0];
    let wrote = state.write(&mut target.data);
    match wrote {
        Ok(()) => {
            proof {
                let pre = old(accounts).deep_view();
                let post = spec_commit_initialize(pre, initial_value).0;
                assert(accounts.deep_view() =~= post);
            }
            Ok(())
        },
        Err(e) => {
            proof {
                let pre = old(accounts).deep_view();
                let post = spec_commit_initialize(pre, initial_value).0;
                assert(accounts.deep_view() =~= post);
            }
            Err(ProcessError::Encode(e))
        },
    }
}

/// Apply the increment transition: enforce ownership, decode the stored
/// counter, add one with an overflow check, and encode the new value back
/// in place. On any failure the accounts are left exactly as supplied.
pub fn process_increment_counter(program_id: &Identity, accounts: &mut Vec<AccountHandle>) -> (r:
    Result<(), ProcessError>)
    ensures
        ({
            let (post, result) = spec_increment(*program_id, old(accounts).deep_view());
            &&& final(accounts).deep_view() == post
            &&& r == result
        }),
{
    let target = match resolve_increment(program_id, accounts) {
        Ok(t) => t,
        Err(e) => {
            return Err(ProcessError::Resolve(e));
        },
    };
    let current = match CounterAccount::read(target.data.as_slice()) {
        Ok(c) => c,
        Err(e) => {
            return Err(ProcessError::Decode(e));
        },
    };
    if current.count == u64::MAX {
        return Err(ProcessError::Overflow);
    }
    let updated = CounterAccount { count: current.count + 1 };
    let handle = &mut accounts[0];
    let wrote = updated.write(&mut handle.data);
    match wrote {
        Ok(()) => {
            proof {
                let pre = old(accounts).deep_view();
                let post = spec_increment(*program_id, pre).0;
                assert(accounts.deep_view() =~= post);
            }
            Ok(())
        },
        Err(e) => {
            proof {
                assert(false);
            }
            Err(ProcessError::Encode(e))
        },
    }
}

/// The entry point the host dispatches once per call: decode the
/// instruction buffer and run the matching operation against the supplied
/// accounts.
pub fn process_instruction(
    program_id: &Identity,
    accounts: &mut Vec<AccountHandle>,
    instruction_data: &[u8],
) -> (r: Result<ProcessEffect, ProcessError>)
    ensures
        ({
            let (post, result) = spec_process(
                *program_id,
                old(accounts).deep_view(),
                instruction_data@,
            );
            &&& final(accounts).deep_view() == post
            &&& r == result
        }),
{
    let instruction = match CounterInstruction::unpack(instruction_data) {
        Ok(i) => i,
        Err(e) => {
            return Err(ProcessError::Decode(e));
        },
    };
    match instruction {
        CounterInstruction::InitializeCounter { initial_value } => process_initialize_counter(
            program_id,
            accounts,
            initial_value,
        ),
        CounterInstruction::IncrementCounter => {
            match process_increment_counter(program_id, accounts) {
                Ok(()) => Ok(ProcessEffect::Committed),
                Err(e) => Err(e),
            }
        },
    }
}

/// Law: a successful increment raises the stored count by exactly one and
/// touches nothing else: the target keeps its address, owner, signer flag,
/// region length and trailing bytes, and every other account is unchanged.
pub proof fn lemma_increment_step(program_id: Identity, accounts: Seq<AccountView>)
    requires
        accounts.len() >= 1,
        accounts[0].owner == program_id,
        accounts[0].data.len() >= 8,
        spec_target_count(accounts) < u64::MAX,
    ensures
        ({
            let (post, result) = spec_increment(program_id, accounts);
            &&& result == Ok::<(), ProcessError>(())
            &&& post.len() == accounts.len()
            &&& post[0].key == accounts[0].key
            &&& post[0].owner == accounts[0].owner
            &&& post[0].is_signer == accounts[0].is_signer
            &&& post[0].data.len() == accounts[0].data.len()
            &&& spec_target_count(post) == spec_target_count(accounts) + 1
            &&& post[0].data.subrange(8, post[0].data.len() as int) == accounts[0].data.subrange(
                8,
                accounts[0].data.len() as int,
            )
            &&& forall|i: int| 1 <= i < accounts.len() ==> post[i] == accounts[i]
        }),
{
    lemma_auto_spec_u64_to_from_le_bytes();
    let updated = CounterAccount { count: (spec_target_count(accounts) + 1) as u64 };
    let region = spec_write(updated, accounts[0].data)->Ok_0;
    assert(region.subrange(0, 8) =~= spec_u64_to_le_bytes(updated.count));
    assert(region.subrange(8, region.len() as int) =~= accounts[0].data.subrange(
        8,
        accounts[0].data.len() as int,
    ));
}

/// The account list after `n` increment transitions, each applied to the
/// outcome of the one before.
pub open spec fn spec_increment_n(
    program_id: Identity,
    accounts: Seq<AccountView>,
    n: nat,
) -> Seq<AccountView>
    decreases n,
{
    if n == 0 {
        accounts
    } else {
        spec_increment(program_id, spec_increment_n(program_id, accounts, (n - 1) as nat)).0
    }
}

/// Law: from a counter at value `v`, `n` increment transitions each
/// succeed and leave the counter at `v + n`, provided `v + n` still fits
/// in 64 bits; in particular `n` transitions from zero leave the counter
/// at exactly `n`.
pub proof fn lemma_increment_n(program_id: Identity, accounts: Seq<AccountView>, n: nat)
    requires
        accounts.len() >= 1,
        accounts[0].owner == program_id,
        accounts[0].data.len() >= 8,
        spec_target_count(accounts) + n <= u64::MAX,
    ensures
        ({
            let post = spec_increment_n(program_id, accounts, n);
            &&& post.len() == accounts.len()
            &&& post[0].owner == accounts[0].owner
            &&& post[0].data.len() == accounts[0].data.len()
            &&& spec_target_count(post) == spec_target_count(accounts) + n
            &&& (n > 0 ==> spec_increment(
                program_id,
                spec_increment_n(program_id, accounts, (n - 1) as nat),
            ).1 == Ok::<(), ProcessError>(()))
        }),
    decreases n,
{
    if n > 0 {
        lemma_increment_n(program_id, accounts, (n - 1) as nat);
        lemma_increment_step(program_id, spec_increment_n(program_id, accounts, (n - 1) as nat));
    }
}

/// Law: a successful commit of initialization leaves the target's region
/// decoding to exactly the starting value.
pub proof fn lemma_commit_initialize_stores_value(accounts: Seq<AccountView>, initial_value: u64)
    requires
        accounts.len() >= 1,
        accounts[0].data.len() >= 8,
    ensures
        ({
            let (post, result) = spec_commit_initialize(accounts, initial_value);
            &&& result == Ok::<(), ProcessError>(())
            &&& post.len() == accounts.len()
            &&& spec_read(post[0].data) == Ok::<CounterAccount, DecodeError>(
                CounterAccount { count: initial_value },
            )
        }),
{
    lemma_write_then_read(CounterAccount { count: initial_value }, accounts[0].data);
}

/// Law: an increment against a counter already at the maximum 64-bit value
/// fails with `Overflow` and leaves every account, bytes included, exactly
/// as it was.
pub proof fn lemma_increment_overflow(program_id: Identity, accounts: Seq<AccountView>)
    requires
        accounts.len() >= 1,
        accounts[0].owner == program_id,
        accounts[0].data.len() >= 8,
        spec_target_count(accounts) == u64::MAX,
    ensures
        spec_increment(program_id, accounts) == (
            accounts,
            Err::<(), ProcessError>(ProcessError::Overflow),
        ),
{
}

/// Law: an increment whose target is owned by a different program fails
/// with `NotOwner` and performs no byte mutation on any account.
pub proof fn lemma_increment_not_owner(program_id: Identity, accounts: Seq<AccountView>)
    requires
        accounts.len() >= 1,
        accounts[0].owner != program_id,
    ensures
        spec_increment(program_id, accounts) == (
            accounts,
            Err::<(), ProcessError>(ProcessError::Resolve(ResolverError::NotOwner)),
        ),
{
}

} // verus!

