//! The requests: which accounts each operation is handed, and which of them
//! co-signed.

use vstd::prelude::*;
use crate::identity::Identity;

verus! {

/// An account that a request refers to: its identity, and whether that
/// identity co-signed the request.
#[derive(Clone, Copy, Debug)]
pub struct AccountRef {
    pub key: Identity,
    pub is_signer: bool,
}

impl AccountRef {
    /// An account that co-signed the request.
    pub fn signer(key: Identity) -> (account: AccountRef)
        ensures
            account == (AccountRef { key, is_signer: true }),
    {
        AccountRef { key, is_signer: true }
    }

    /// An account that the request only names.
    pub fn unsigned(key: Identity) -> (account: AccountRef)
        ensures
            account == (AccountRef { key, is_signer: false }),
    {
        AccountRef { key, is_signer: false }
    }
}

/// The accounts of `set_authority`. Payer and upgrade authority have to sign,
/// and the upgrade authority has to be the deployment's upgrade controller.
#[derive(Clone, Copy, Debug)]
pub struct SetAuthority {
    pub payer: AccountRef,
    pub upgrade_authority: AccountRef,
}

/// The accounts of `create_escrow`. Payer and buyer have to sign.
#[derive(Clone, Copy, Debug)]
pub struct CreateEscrow {
    pub payer: AccountRef,
    pub buyer: AccountRef,
}

/// The accounts of `complete_sale`. The buyer has to sign.
#[derive(Clone, Copy, Debug)]
pub struct CompleteSale {
    pub buyer: AccountRef,
    pub seller: AccountRef,
}

/// The accounts of `refund_buyer`. The seller has to sign.
#[derive(Clone, Copy, Debug)]
pub struct RefundBuyer {
    pub buyer: AccountRef,
    pub seller: AccountRef,
}

/// The accounts of `authority_override`. The authority has to sign and to be
/// the registered arbiter; no signature is asked of buyer or seller.
#[derive(Clone, Copy, Debug)]
pub struct AuthorityOverride {
    pub buyer: AccountRef,
    pub seller: AccountRef,
    pub authority: AccountRef,
}

} // verus!
