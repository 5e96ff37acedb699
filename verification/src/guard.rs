//! The checks that stand before every transition, each on its own.

use vstd::prelude::*;
use crate::context::AccountRef;
use crate::error::{EscrowError, LedgerError};
use crate::identity::Identity;
use crate::state::{AuthoritySettings, Escrow};

verus! {

/// What the signature check answers for an account.
pub open spec fn signer_check(account: AccountRef) -> Result<(), EscrowError> {
    if account.is_signer {
        Ok(())
    } else {
        Err(EscrowError::Ledger(LedgerError::MissingSignature))
    }
}

/// What the relationship check answers for a record and the two identities
/// that a request names.
pub open spec fn has_one_check(escrow: Escrow, buyer: Identity, seller: Identity) -> Result<
    (),
    EscrowError,
> {
    if escrow.buyer == buyer && escrow.seller == seller {
        Ok(())
    } else {
        Err(EscrowError::Ledger(LedgerError::RelationshipMismatch))
    }
}

/// What the arbiter check answers for the registered settings and the account
/// that asks for an override: the account has to have signed the request, and
/// its identity has to be the registered arbiter's.
pub open spec fn authority_check(settings: AuthoritySettings, authority: AccountRef) -> Result<
    (),
    EscrowError,
> {
    if authority.is_signer && settings.address == authority.key {
        Ok(())
    } else {
        Err(EscrowError::AuthorityMismatch)
    }
}

/// Accepts an account exactly when its identity co-signed the request.
pub fn require_signer(account: &AccountRef) -> (checked: Result<(), EscrowError>)
    ensures
        checked == signer_check(*account),
{
    if account.is_signer {
        Ok(())
    } else {
        Err(EscrowError::Ledger(LedgerError::MissingSignature))
    }
}

/// Accepts a record exactly when its stored buyer and seller are the two
/// identities given.
pub fn require_has_one(escrow: &Escrow, buyer: &Identity, seller: &Identity) -> (checked: Result<
    (),
    EscrowError,
>)
    ensures
        checked == has_one_check(*escrow, *buyer, *seller),
{
    if escrow.buyer == *buyer && escrow.seller == *seller {
        Ok(())
    } else {
        Err(EscrowError::Ledger(LedgerError::RelationshipMismatch))
    }
}

/// Accepts an account exactly when it signed the request and its identity is
/// the registered arbiter's.
pub fn require_authority(settings: &AuthoritySettings, authority: &AccountRef) -> (checked: Result<
    (),
    EscrowError,
>)
    ensures
        checked == authority_check(*settings, *authority),
{
    if authority.is_signer && settings.address == authority.key {
        Ok(())
    } else {
        Err(EscrowError::AuthorityMismatch)
    }
}

} // verus!
