//! The account resolver: maps the ordered account list the host supplied
//! to the named roles each operation requires, enforcing arity and
//! ownership.

use vstd::prelude::*;

use crate::account::{AccountHandle, AccountView, Identity};
use crate::errors::ResolverError;

verus! {

/// Whether the account list satisfies initialization's requirement: at
/// least three accounts, read in order as the target to create, the funder
/// paying for it, and the external account-creation service. Signing is
/// enforced by the creation service itself when the sub-call runs, so no
/// local signer check stands here.
pub open spec fn spec_resolve_initialize(accounts: Seq<AccountView>) -> Result<
    (),
    ResolverError,
> {
    if accounts.len() >= 3 {
        Ok(())
    } else {
        Err(ResolverError::MissingAccount)
    }
}

/// Whether the account list satisfies increment's requirement: a target
/// account, first in the list, owned by the executing program. The
/// ownership test is the sole authorization check in the system: the host
/// guarantees only that an account's data is written by its owning
/// program, so without this test any program could drive this logic
/// against a foreign counter region.
pub open spec fn spec_resolve_increment(
    program_id: Identity,
    accounts: Seq<AccountView>,
) -> Result<(), ResolverError> {
    if accounts.len() < 1 {
        Err(ResolverError::MissingAccount)
    } else if accounts[0].owner != program_id {
        Err(ResolverError::NotOwner)
    } else {
        Ok(())
    }
}

/// Resolve the roles initialization needs: the target account, the funder,
/// and the account-creation service, the first three supplied accounts in
/// order.
pub fn resolve_initialize<'a>(accounts: &'a Vec<AccountHandle>) -> (r: Result<
    (&'a AccountHandle, &'a AccountHandle, &'a AccountHandle),
    ResolverError,
>)
    ensures
        spec_resolve_initialize(accounts.deep_view()) is Ok ==> (r matches Ok((
            target,
            funder,
            service,
        )) && *target == accounts@[0] && *funder == accounts@[1] && *service == accounts@[2]),
        spec_resolve_initialize(accounts.deep_view()) matches Err(e) ==> r == Err::<
            (&'a AccountHandle, &'a AccountHandle, &'a AccountHandle),
            ResolverError,
        >(e),
{
    if accounts.len() >= 3 {
        Ok((&accounts[0], &accounts[1], &accounts[2]))
    } else {
        Err(ResolverError::MissingAccount)
    }
}

/// Resolve the role increment needs: the target account, first in the
/// list, which must be owned by the executing program.
pub fn resolve_increment<'a>(program_id: &Identity, accounts: &'a Vec<AccountHandle>) -> (r:
    Result<&'a AccountHandle, ResolverError>)
    ensures
        spec_resolve_increment(*program_id, accounts.deep_view()) is Ok ==> (r matches Ok(target)
            && *target == accounts@[0]),
        spec_resolve_increment(*program_id, accounts.deep_view()) matches Err(e) ==> r == Err::<
            &'a AccountHandle,
            ResolverError,
        >(e),
{
    if accounts.len() < 1 {
        return Err(ResolverError::MissingAccount);
    }
    let target = &accounts[0];
    if target.owner == *program_id {
        Ok(target)
    } else {
        Err(ResolverError::NotOwner)
    }
}

} // verus!
