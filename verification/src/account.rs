//! The call-context data model: the host-supplied account handles this
//! logic reads and writes during one call.
//!
//! The host names accounts and programs by 32-byte addresses. Only equality
//! of those addresses matters to this logic, so an address is held here as
//! four 64-bit words, a lossless form the verifier can compare directly.

use vstd::prelude::*;

verus! {

/// The identity of an account or program: the host's 32-byte address,
/// held as four little-endian 64-bit words.
#[derive(Clone, Copy, Debug, PartialEq, Eq, Structural)]
pub struct Identity {
    /// Words 0..4 of the address, least significant first.
    pub w0: u64,
    /// Second word.
    pub w1: u64,
    /// Third word.
    pub w2: u64,
    /// Fourth word.
    pub w3: u64,
}

/// One account handle supplied by the host for the duration of a call:
/// its address, the program that owns it, whether it signed the call,
/// and its mutable byte region. This logic never constructs accounts;
/// it only reads and writes through the handles the host passes in.
pub struct AccountHandle {
    /// The account's address.
    pub key: Identity,
    /// The program that owns the account; only the owner may mutate the
    /// account's byte region.
    pub owner: Identity,
    /// Whether this account cryptographically authorized the call.
    pub is_signer: bool,
    /// The account's durable byte region.
    pub data: Vec<u8>,
}

/// The mathematical value of an account handle.
pub struct AccountView {
    /// The account's address.
    pub key: Identity,
    /// The owning program.
    pub owner: Identity,
    /// Whether the account signed the call.
    pub is_signer: bool,
    /// The byte region's contents.
    pub data: Seq<u8>,
}

impl View for AccountHandle {
    type V = AccountView;

    open spec fn view(&self) -> AccountView {
        AccountView {
            key: self.key,
            owner: self.owner,
            is_signer: self.is_signer,
            data: self.data@,
        }
    }
}

impl DeepView for AccountHandle {
    type V = AccountView;

    open spec fn deep_view(&self) -> AccountView {
        self.view()
    }
}

} // verus!
