//! The records that the ledger keeps.

use vstd::prelude::*;
use vstd::std_specs::cmp::PartialEqSpecImpl;
use vstd::string::{is_ascii_spec_bytes, StrSliceExecFns, StringSliceAdditionalSpecFns};
use crate::identity::Identity;

verus! {

/// The singleton record that names the current arbiter.
#[derive(Clone, Copy, Debug)]
pub struct AuthoritySettings {
    pub address: Identity,
}

impl AuthoritySettings {
    /// The label under which the singleton's address is derived.
    pub const PREFIX: &'static str = "authority";

    /// The bytes that the record takes in storage: an 8-byte tag and the address.
    pub const SIZE: usize = 8 + 32;

    /// The label as the bytes of its ASCII letters.
    pub open spec fn prefix_seq() -> Seq<u8> {
        seq![97u8, 117u8, 116u8, 104u8, 111u8, 114u8, 105u8, 116u8, 121u8]
    }

    /// The bytes of `PREFIX` are those of `prefix_seq`, one for one.
    pub proof fn lemma_prefix_bytes()
        ensures
            Self::PREFIX.spec_bytes() == Self::prefix_seq(),
    {
        reveal_strlit("authority");
        is_ascii_spec_bytes(Self::PREFIX);
        assert(Self::PREFIX.spec_bytes() =~= Self::prefix_seq());
    }

    /// The bytes of `PREFIX`, as the address derivation takes them.
    pub fn prefix_bytes() -> (label: Vec<u8>)
        ensures
            label@ == Self::PREFIX.spec_bytes(),
            label@ == Self::prefix_seq(),
    {
        proof {
            Self::lemma_prefix_bytes();
        }
        Self::PREFIX.as_bytes_vec()
    }
}

impl PartialEq for AuthoritySettings {
    fn eq(&self, other: &AuthoritySettings) -> (same: bool) {
        self.address == other.address
    }
}

impl Eq for AuthoritySettings {}

impl PartialEqSpecImpl for AuthoritySettings {
    open spec fn obeys_eq_spec() -> bool {
        true
    }

    open spec fn eq_spec(&self, other: &AuthoritySettings) -> bool {
        *self == *other
    }
}

/// The record of one ordered pair of buyer and seller. Neither field changes
/// while the record lives.
#[derive(Clone, Copy, Debug)]
pub struct Escrow {
    pub buyer: Identity,
    pub seller: Identity,
}

impl Escrow {
    /// The label under which a pair's address is derived.
    pub const PREFIX: &'static str = "escrow";

    /// The bytes that the record takes in storage: an 8-byte tag and two identities.
    pub const SIZE: usize = 8 + 32 + 32;

    /// The label as the bytes of its ASCII letters.
    pub open spec fn prefix_seq() -> Seq<u8> {
        seq![101u8, 115u8, 99u8, 114u8, 111u8, 119u8]
    }

    /// The bytes of `PREFIX` are those of `prefix_seq`, one for one.
    pub proof fn lemma_prefix_bytes()
        ensures
            Self::PREFIX.spec_bytes() == Self::prefix_seq(),
    {
        reveal_strlit("escrow");
        is_ascii_spec_bytes(Self::PREFIX);
        assert(Self::PREFIX.spec_bytes() =~= Self::prefix_seq());
    }

    /// The bytes of `PREFIX`, as the address derivation takes them.
    pub fn prefix_bytes() -> (label: Vec<u8>)
        ensures
            label@ == Self::PREFIX.spec_bytes(),
            label@ == Self::prefix_seq(),
    {
        proof {
            Self::lemma_prefix_bytes();
        }
        Self::PREFIX.as_bytes_vec()
    }
}

impl PartialEq for Escrow {
    fn eq(&self, other: &Escrow) -> (same: bool) {
        self.buyer == other.buyer && self.seller == other.seller
    }
}

impl Eq for Escrow {}

impl PartialEqSpecImpl for Escrow {
    open spec fn obeys_eq_spec() -> bool {
        true
    }

    open spec fn eq_spec(&self, other: &Escrow) -> bool {
        *self == *other
    }
}

/// The party in whose favour the arbiter closes an escrow.
#[derive(Clone, Copy, Debug, PartialEq, Eq, Structural)]
pub enum AuthorityRuling {
    Buyer,
    Seller,
}

} // verus!
