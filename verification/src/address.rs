//! Deterministic addressing: where the ledger keeps the singleton and the
//! record of a pair.
//!
//! An address is derived from a label, the identities that key the record and
//! the identity of the program that owns it. The derivation itself is the
//! ledger's; this module fixes what is handed to it.

use vstd::prelude::*;
use anchor_lang::prelude::Pubkey;
use crate::identity::Identity;
use crate::state::{AuthoritySettings, Escrow};

verus! {

/// The address and bump seed that `Pubkey::try_find_program_address` derives
/// from a list of seeds and a program's identity, or `None` where it finds none.
pub uninterp spec fn program_address(seeds: Seq<Seq<u8>>, program: Seq<u8>) -> Option<(Seq<u8>, u8)>;

/// The seeds as byte sequences.
pub open spec fn seeds_view(seeds: Seq<Vec<u8>>) -> Seq<Seq<u8>> {
    Seq::new(seeds.len(), |i: int| seeds[i]@)
}

/// A derived address and its bump seed as plain values.
pub open spec fn derived_view(found: Option<(Identity, u8)>) -> Option<(Seq<u8>, u8)> {
    match found {
        Some((address, bump)) => Some((address@, bump)),
        None => None,
    }
}

/// The seeds of the arbiter's settings: the label alone.
pub open spec fn authority_settings_seeds() -> Seq<Seq<u8>> {
    seq![AuthoritySettings::prefix_seq()]
}

/// The seeds of a pair's record: the label, the buyer, the seller.
pub open spec fn escrow_seeds(buyer: Identity, seller: Identity) -> Seq<Seq<u8>> {
    seq![Escrow::prefix_seq(), buyer@, seller@]
}

/// Calls `Pubkey::try_find_program_address` of `anchor_lang` on the seeds and
/// the program's identity. The call computes from its arguments alone; the
/// contract says only that what it returns is the value named
/// `program_address` of them.
#[verifier::external_body]
fn find_program_address(seeds: &Vec<Vec<u8>>, program: &Identity) -> (found: Option<(Identity, u8)>)
    ensures
        derived_view(found) == program_address(seeds_view(seeds@), program@),
{
    let parts: Vec<&[u8]> = seeds.iter().map(|s| s.as_slice()).collect();
    let program_id = Pubkey::new_from_array(program.bytes);
    match Pubkey::try_find_program_address(&parts, &program_id) {
        Some((address, bump)) => Some((Identity { bytes: address.to_bytes() }, bump)),
        None => None,
    }
}

/// The address of the arbiter's settings under `program`, with its bump seed.
pub fn authority_settings_address(program: &Identity) -> (found: Option<(Identity, u8)>)
    ensures
        derived_view(found) == program_address(authority_settings_seeds(), program@),
{
    let mut seeds: Vec<Vec<u8>> = Vec::new();
    seeds.push(AuthoritySettings::prefix_bytes());
    assert(seeds_view(seeds@) =~= authority_settings_seeds());
    find_program_address(&seeds, program)
}

/// The address of the record of `buyer` and `seller` under `program`, with its
/// bump seed.
pub fn escrow_address(program: &Identity, buyer: &Identity, seller: &Identity) -> (found: Option<
    (Identity, u8),
>)
    ensures
        derived_view(found) == program_address(escrow_seeds(*buyer, *seller), program@),
{
    let mut seeds: Vec<Vec<u8>> = Vec::new();
    seeds.push(Escrow::prefix_bytes());
    seeds.push(buyer.to_vec());
    seeds.push(seller.to_vec());
    assert(seeds_view(seeds@) =~= escrow_seeds(*buyer, *seller));
    find_program_address(&seeds, program)
}

} // verus!
