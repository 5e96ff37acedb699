//! The typed rejections that an operation can end in.

use vstd::prelude::*;

verus! {

/// A rejection that the ledger itself raises, before or beside the escrow rules.
#[derive(Clone, Copy, Debug, PartialEq, Eq, Structural)]
pub enum LedgerError {
    /// A live record already stands at the address of the pair.
    AddressOccupied,
    /// No record stands where the request looks for one.
    RecordNotFound,
    /// A record's stored buyer or seller is not the identity that the request names.
    RelationshipMismatch,
    /// An identity that has to co-sign the request did not.
    MissingSignature,
    /// The signer is not the deployment's upgrade controller.
    ControllerLinkage,
}

/// Why an operation was rejected.
#[derive(Clone, Copy, Debug, PartialEq, Eq, Structural)]
pub enum EscrowError {
    /// The identity that asks for an override is not the registered arbiter.
    AuthorityMismatch,
    /// A rejection of the ledger, handed on as it came.
    Ledger(LedgerError),
}

impl LedgerError {
    /// The text of the rejection, as a sequence of characters.
    pub open spec fn message_text(self) -> Seq<char> {
        match self {
            LedgerError::AddressOccupied => "A record already exists for this buyer and seller."@,
            LedgerError::RecordNotFound => "No record exists at the requested address."@,
            LedgerError::RelationshipMismatch => "The record does not belong to the named buyer and seller."@,
            LedgerError::MissingSignature => "A required signature is missing."@,
            LedgerError::ControllerLinkage => "The signer is not the upgrade authority of the program."@,
        }
    }

    /// The text of the rejection.
    pub fn message(&self) -> (text: &'static str)
        ensures
            text@ == self.message_text(),
    {
        match self {
            LedgerError::AddressOccupied => "A record already exists for this buyer and seller.",
            LedgerError::RecordNotFound => "No record exists at the requested address.",
            LedgerError::RelationshipMismatch => "The record does not belong to the named buyer and seller.",
            LedgerError::MissingSignature => "A required signature is missing.",
            LedgerError::ControllerLinkage => "The signer is not the upgrade authority of the program.",
        }
    }
}

impl EscrowError {
    /// The text of the rejection, as a sequence of characters.
    pub open spec fn message_text(self) -> Seq<char> {
        match self {
            EscrowError::AuthorityMismatch => "Authority Pubkey does not match the AuthoritySettings account."@,
            EscrowError::Ledger(e) => e.message_text(),
        }
    }

    /// The text of the rejection.
    pub fn message(&self) -> (text: &'static str)
        ensures
            text@ == self.message_text(),
    {
        match self {
            EscrowError::AuthorityMismatch => "Authority Pubkey does not match the AuthoritySettings account.",
            EscrowError::Ledger(e) => e.message(),
        }
    }
}

} // verus!
