//! The ledger and its five operations.
//!
//! The ledger holds the deployment's upgrade controller, the arbiter's
//! settings once they exist, and the open escrow records, at most one for each
//! ordered pair of buyer and seller. Each operation either applies its
//! transition or is rejected with the ledger unchanged.

use vstd::prelude::*;
use crate::context::{AuthorityOverride, CompleteSale, CreateEscrow, RefundBuyer, SetAuthority};
use crate::error::{EscrowError, LedgerError};
use crate::guard::{require_authority, require_has_one, require_signer};
use crate::identity::Identity;
use crate::state::{AuthorityRuling, AuthoritySettings, Escrow};

verus! {

/// What a ledger holds, as a mathematical value.
#[verifier::ext_equal]
pub struct LedgerView {
    /// The deployment's upgrade controller, if it has one.
    pub upgrade_authority: Option<Identity>,
    /// The arbiter's settings, once `set_authority` has created them.
    pub authority_settings: Option<AuthoritySettings>,
    /// The open escrow records.
    pub escrows: Set<Escrow>,
}

/// The persistent state that the operations work on.
#[derive(Debug)]
pub struct Ledger {
    upgrade_authority: Option<Identity>,
    authority_settings: Option<AuthoritySettings>,
    escrows: Vec<Escrow>,
}

impl View for Ledger {
    type V = LedgerView;

    closed spec fn view(&self) -> LedgerView {
        LedgerView {
            upgrade_authority: self.upgrade_authority,
            authority_settings: self.authority_settings,
            escrows: self.escrows@.to_set(),
        }
    }
}

/// A record that is not in a sequence without repetition can be appended: the
/// sequence stays without repetition and holds that one record more.
proof fn lemma_push_fresh(s: Seq<Escrow>, e: Escrow)
    requires
        s.no_duplicates(),
        !s.contains(e),
    ensures
        s.push(e).no_duplicates(),
        s.push(e).to_set() == s.to_set().insert(e),
{
    let t = s.push(e);
    assert forall|x: Escrow| t.contains(x) <==> (s.contains(x) || x == e) by {
        if s.contains(x) {
            let i = choose|i: int| 0 <= i < s.len() && s[i] == x;
            assert(t[i] == x);
        }
        if x == e {
            assert(t[s.len() as int] == x);
        }
    }
    assert(t.to_set() =~= s.to_set().insert(e));
}

/// Taking a record out of a sequence without repetition leaves a sequence
/// without repetition that holds every other record and not that one.
proof fn lemma_remove_at(s: Seq<Escrow>, k: int)
    requires
        s.no_duplicates(),
        0 <= k < s.len(),
    ensures
        s.remove(k).no_duplicates(),
        s.remove(k).to_set() == s.to_set().remove(s[k]),
{
    let t = s.remove(k);
    assert forall|x: Escrow| t.contains(x) <==> (s.contains(x) && x != s[k]) by {
        if t.contains(x) {
            let i = choose|i: int| 0 <= i < t.len() && t[i] == x;
            if i < k {
                assert(s[i] == x);
            } else {
                assert(s[i + 1] == x);
            }
        }
        if s.contains(x) && x != s[k] {
            let i = choose|i: int| 0 <= i < s.len() && s[i] == x;
            if i < k {
                assert(t[i] == x);
            } else {
                assert(t[i - 1] == x);
            }
        }
    }
    assert(t.to_set() =~= s.to_set().remove(s[k]));
}

/// Where the record of a pair stands among `records`, if it is there.
fn position(records: &Vec<Escrow>, buyer: &Identity, seller: &Identity) -> (found: Option<usize>)
    ensures
        match found {
            Some(i) => i < records@.len() && records@[i as int] == (Escrow {
                buyer: *buyer,
                seller: *seller,
            }),
            None => !records@.contains(Escrow { buyer: *buyer, seller: *seller }),
        },
{
    let mut i: usize = 0;
    while i < records.len()
        invariant
            i <= records@.len(),
            forall|j: int| 0 <= j < i ==> records@[j] != (Escrow { buyer: *buyer, seller: *seller }),
        decreases records@.len() - i,
    {
        if records[i].buyer == *buyer && records[i].seller == *seller {
            return Some(i);
        }
        i = i + 1;
    }
    None
}

impl Ledger {
    /// No pair has two records.
    #[verifier::type_invariant]
    spec fn one_record_per_pair(&self) -> bool {
        self.escrows@.no_duplicates()
    }

    /// The ledger of a fresh deployment: no arbiter yet, no escrow.
    pub fn new(upgrade_authority: Option<Identity>) -> (ledger: Ledger)
        ensures
            ledger@ == (LedgerView {
                upgrade_authority,
                authority_settings: None,
                escrows: Set::empty(),
            }),
    {
        let ledger = Ledger { upgrade_authority, authority_settings: None, escrows: Vec::new() };
        assert(ledger.escrows@.to_set() =~= Set::<Escrow>::empty());
        ledger
    }

    /// The ledger that holds the given records, as read back from storage. The
    /// records are accepted exactly when no pair occurs twice among them.
    pub fn restore(
        upgrade_authority: Option<Identity>,
        authority_settings: Option<AuthoritySettings>,
        escrows: Vec<Escrow>,
    ) -> (loaded: Result<Ledger, EscrowError>)
        ensures
            match loaded {
                Ok(ledger) => escrows@.no_duplicates() && ledger@ == (LedgerView {
                    upgrade_authority,
                    authority_settings,
                    escrows: escrows@.to_set(),
                }),
                Err(e) => !escrows@.no_duplicates() && e == EscrowError::Ledger(
                    LedgerError::AddressOccupied,
                ),
            },
    {
        let mut records: Vec<Escrow> = Vec::new();
        let mut i: usize = 0;
        while i < escrows.len()
            invariant
                i <= escrows@.len(),
                records@ == escrows@.subrange(0, i as int),
                records@.no_duplicates(),
            decreases escrows@.len() - i,
        {
            let record = escrows[i];
            match position(&records, &record.buyer, &record.seller) {
                Some(k) => {
                    assert(escrows@[k as int] == escrows@[i as int]);
                    return Err(EscrowError::Ledger(LedgerError::AddressOccupied));
                },
                None => {},
            }
            proof {
                lemma_push_fresh(records@, record);
            }
            records.push(record);
            assert(records@ =~= escrows@.subrange(0, i + 1));
            i = i + 1;
        }
        assert(records@ =~= escrows@);
        Ok(Ledger { upgrade_authority, authority_settings, escrows: records })
    }

    /// The deployment's upgrade controller.
    pub fn upgrade_authority(&self) -> (controller: Option<Identity>)
        ensures
            controller == self@.upgrade_authority,
    {
        self.upgrade_authority
    }

    /// The arbiter's settings, if they exist yet.
    pub fn authority_settings(&self) -> (settings: Option<AuthoritySettings>)
        ensures
            settings == self@.authority_settings,
    {
        self.authority_settings
    }

    /// The open record of a pair, if there is one.
    pub fn escrow(&self, buyer: &Identity, seller: &Identity) -> (record: Option<Escrow>)
        ensures
            record == if self@.escrows.contains(Escrow { buyer: *buyer, seller: *seller }) {
                Some(Escrow { buyer: *buyer, seller: *seller })
            } else {
                None
            },
    {
        match position(&self.escrows, buyer, seller) {
            Some(i) => Some(self.escrows[i]),
            None => None,
        }
    }

    /// How many escrows are open.
    pub fn open_count(&self) -> (count: usize)
        ensures
            count == self@.escrows.len(),
    {
        proof {
            use_type_invariant(self);
            self.escrows@.unique_seq_to_set();
        }
        self.escrows.len()
    }

    /// Finds the open record of a pair and holds it to the relationship check.
    fn locate(&self, buyer: &Identity, seller: &Identity) -> (found: Result<usize, EscrowError>)
        ensures
            match found {
                Ok(i) => i < self.escrows@.len() && self.escrows@[i as int] == (Escrow {
                    buyer: *buyer,
                    seller: *seller,
                }) && self@.escrows.contains(Escrow { buyer: *buyer, seller: *seller }),
                Err(e) => e == EscrowError::Ledger(LedgerError::RecordNotFound)
                    && !self@.escrows.contains(Escrow { buyer: *buyer, seller: *seller }),
            },
    {
        match position(&self.escrows, buyer, seller) {
            None => Err(EscrowError::Ledger(LedgerError::RecordNotFound)),
            Some(i) => match require_has_one(&self.escrows[i], buyer, seller) {
                Ok(()) => Ok(i),
                Err(e) => Err(e),
            },
        }
    }

    /// Adds the record of a pair that has none.
    fn open(&mut self, escrow: Escrow)
        requires
            !old(self)@.escrows.contains(escrow),
        ensures
            final(self)@ == with_escrow(old(self)@, escrow),
    {
        proof {
            use_type_invariant(&*self);
            lemma_push_fresh(self.escrows@, escrow);
        }
        // The records leave the ledger for the change and come back changed,
        // so that the ledger is whole whenever it can be looked at.
        let mut records: Vec<Escrow> = Vec::new();
        std::mem::swap(&mut self.escrows, &mut records);
        records.push(escrow);
        std::mem::swap(&mut self.escrows, &mut records);
    }

    /// Closes the open record of a pair.
    fn close(&mut self, buyer: &Identity, seller: &Identity) -> (closed: Result<(), EscrowError>)
        ensures
            closed == if old(self)@.escrows.contains(Escrow { buyer: *buyer, seller: *seller }) {
                Ok::<(), EscrowError>(())
            } else {
                Err::<(), EscrowError>(EscrowError::Ledger(LedgerError::RecordNotFound))
            },
            final(self)@ == if closed is Ok {
                without_escrow(old(self)@, Escrow { buyer: *buyer, seller: *seller })
            } else {
                old(self)@
            },
    {
        match self.locate(buyer, seller) {
            Err(e) => Err(e),
            Ok(i) => {
                proof {
                    use_type_invariant(&*self);
                    lemma_remove_at(self.escrows@, i as int);
                }
                let mut records: Vec<Escrow> = Vec::new();
                std::mem::swap(&mut self.escrows, &mut records);
                records.remove(i);
                std::mem::swap(&mut self.escrows, &mut records);
                Ok(())
            },
        }
    }
}

/// The ledger with one more open record.
pub open spec fn with_escrow(s: LedgerView, e: Escrow) -> LedgerView {
    LedgerView {
        upgrade_authority: s.upgrade_authority,
        authority_settings: s.authority_settings,
        escrows: s.escrows.insert(e),
    }
}

/// The ledger with one record closed.
pub open spec fn without_escrow(s: LedgerView, e: Escrow) -> LedgerView {
    LedgerView {
        upgrade_authority: s.upgrade_authority,
        authority_settings: s.authority_settings,
        escrows: s.escrows.remove(e),
    }
}

/// The ledger with the arbiter set.
pub open spec fn with_authority(s: LedgerView, authority: Identity) -> LedgerView {
    LedgerView {
        upgrade_authority: s.upgrade_authority,
        authority_settings: Some(AuthoritySettings { address: authority }),
        escrows: s.escrows,
    }
}

/// How `set_authority` ends: payer and upgrade authority have to sign, and the
/// upgrade authority has to be the deployment's upgrade controller.
pub open spec fn set_authority_outcome(s: LedgerView, ctx: SetAuthority) -> Result<(), EscrowError> {
    if !ctx.payer.is_signer || !ctx.upgrade_authority.is_signer {
        Err(EscrowError::Ledger(LedgerError::MissingSignature))
    } else if s.upgrade_authority != Some(ctx.upgrade_authority.key) {
        Err(EscrowError::Ledger(LedgerError::ControllerLinkage))
    } else {
        Ok(())
    }
}

/// The ledger after `set_authority`.
pub open spec fn set_authority_next(s: LedgerView, ctx: SetAuthority, authority: Identity) -> LedgerView {
    if set_authority_outcome(s, ctx) is Ok {
        with_authority(s, authority)
    } else {
        s
    }
}

/// How `create_escrow` ends: payer and buyer have to sign, and the pair must
/// have no open record.
pub open spec fn create_escrow_outcome(s: LedgerView, ctx: CreateEscrow, seller: Identity) -> Result<
    (),
    EscrowError,
> {
    if !ctx.payer.is_signer || !ctx.buyer.is_signer {
        Err(EscrowError::Ledger(LedgerError::MissingSignature))
    } else if s.escrows.contains(Escrow { buyer: ctx.buyer.key, seller }) {
        Err(EscrowError::Ledger(LedgerError::AddressOccupied))
    } else {
        Ok(())
    }
}

/// The ledger after `create_escrow`.
pub open spec fn create_escrow_next(s: LedgerView, ctx: CreateEscrow, seller: Identity) -> LedgerView {
    if create_escrow_outcome(s, ctx, seller) is Ok {
        with_escrow(s, Escrow { buyer: ctx.buyer.key, seller })
    } else {
        s
    }
}

/// How `complete_sale` ends: the buyer has to sign and the pair's record has
/// to be open; the value then goes to the seller.
pub open spec fn complete_sale_outcome(s: LedgerView, ctx: CompleteSale) -> Result<Identity, EscrowError> {
    if !ctx.buyer.is_signer {
        Err(EscrowError::Ledger(LedgerError::MissingSignature))
    } else if !s.escrows.contains(Escrow { buyer: ctx.buyer.key, seller: ctx.seller.key }) {
        Err(EscrowError::Ledger(LedgerError::RecordNotFound))
    } else {
        Ok(ctx.seller.key)
    }
}

/// The ledger after `complete_sale`.
pub open spec fn complete_sale_next(s: LedgerView, ctx: CompleteSale) -> LedgerView {
    if complete_sale_outcome(s, ctx) is Ok {
        without_escrow(s, Escrow { buyer: ctx.buyer.key, seller: ctx.seller.key })
    } else {
        s
    }
}

/// How `refund_buyer` ends: the seller has to sign and the pair's record has
/// to be open; the value then goes back to the buyer.
pub open spec fn refund_buyer_outcome(s: LedgerView, ctx: RefundBuyer) -> Result<Identity, EscrowError> {
    if !ctx.seller.is_signer {
        Err(EscrowError::Ledger(LedgerError::MissingSignature))
    } else if !s.escrows.contains(Escrow { buyer: ctx.buyer.key, seller: ctx.seller.key }) {
        Err(EscrowError::Ledger(LedgerError::RecordNotFound))
    } else {
        Ok(ctx.buyer.key)
    }
}

/// The ledger after `refund_buyer`.
pub open spec fn refund_buyer_next(s: LedgerView, ctx: RefundBuyer) -> LedgerView {
    if refund_buyer_outcome(s, ctx) is Ok {
        without_escrow(s, Escrow { buyer: ctx.buyer.key, seller: ctx.seller.key })
    } else {
        s
    }
}

/// The party that a ruling names.
pub open spec fn ruled_recipient(ctx: AuthorityOverride, ruling: AuthorityRuling) -> Identity {
    match ruling {
        AuthorityRuling::Buyer => ctx.buyer.key,
        AuthorityRuling::Seller => ctx.seller.key,
    }
}

/// The identity of the party that `ruling` names among the request's accounts.
pub fn ruling_recipient(ctx: &AuthorityOverride, ruling: AuthorityRuling) -> (recipient: Identity)
    ensures
        recipient == ruled_recipient(*ctx, ruling),
{
    match ruling {
        AuthorityRuling::Buyer => ctx.buyer.key,
        AuthorityRuling::Seller => ctx.seller.key,
    }
}

/// How `authority_override` ends: the arbiter's settings have to exist, the
/// authority has to have signed the request and be the registered arbiter, and
/// the pair's record has to be open; the value then goes to the party that the
/// ruling names. Whoever is not the arbiter, or names the arbiter without its
/// signature, is told of the mismatch before any record is looked for.
pub open spec fn authority_override_outcome(
    s: LedgerView,
    ctx: AuthorityOverride,
    ruling: AuthorityRuling,
) -> Result<Identity, EscrowError> {
    match s.authority_settings {
        None => Err(EscrowError::Ledger(LedgerError::RecordNotFound)),
        Some(settings) => if !ctx.authority.is_signer || settings.address != ctx.authority.key {
            Err(EscrowError::AuthorityMismatch)
        } else if !s.escrows.contains(Escrow { buyer: ctx.buyer.key, seller: ctx.seller.key }) {
            Err(EscrowError::Ledger(LedgerError::RecordNotFound))
        } else {
            Ok(ruled_recipient(ctx, ruling))
        },
    }
}

/// The ledger after `authority_override`.
pub open spec fn authority_override_next(
    s: LedgerView,
    ctx: AuthorityOverride,
    ruling: AuthorityRuling,
) -> LedgerView {
    if authority_override_outcome(s, ctx, ruling) is Ok {
        without_escrow(s, Escrow { buyer: ctx.buyer.key, seller: ctx.seller.key })
    } else {
        s
    }
}

/// Registers `authority` as the arbiter, creating the settings on the first
/// call and overwriting them on every later one.
pub fn set_authority(ledger: &mut Ledger, ctx: &SetAuthority, authority: Identity) -> (outcome: Result<
    (),
    EscrowError,
>)
    ensures
        outcome == set_authority_outcome(old(ledger)@, *ctx),
        final(ledger)@ == set_authority_next(old(ledger)@, *ctx, authority),
{
    match require_signer(&ctx.payer) {
        Err(e) => {
            return Err(e);
        },
        Ok(()) => {},
    }
    match require_signer(&ctx.upgrade_authority) {
        Err(e) => {
            return Err(e);
        },
        Ok(()) => {},
    }
    let linked = match ledger.upgrade_authority {
        Some(controller) => controller == ctx.upgrade_authority.key,
        None => false,
    };
    if !linked {
        return Err(EscrowError::Ledger(LedgerError::ControllerLinkage));
    }
    proof {
        use_type_invariant(&*ledger);
    }
    ledger.authority_settings = Some(AuthoritySettings { address: authority });
    Ok(())
}

/// Opens the escrow of the signing buyer and `seller`.
pub fn create_escrow(ledger: &mut Ledger, ctx: &CreateEscrow, seller: Identity) -> (outcome: Result<
    (),
    EscrowError,
>)
    ensures
        outcome == create_escrow_outcome(old(ledger)@, *ctx, seller),
        final(ledger)@ == create_escrow_next(old(ledger)@, *ctx, seller),
{
    match require_signer(&ctx.payer) {
        Err(e) => {
            return Err(e);
        },
        Ok(()) => {},
    }
    match require_signer(&ctx.buyer) {
        Err(e) => {
            return Err(e);
        },
        Ok(()) => {},
    }
    let escrow = Escrow { buyer: ctx.buyer.key, seller };
    if position(&ledger.escrows, &escrow.buyer, &escrow.seller).is_some() {
        assert(ledger.escrows@.contains(escrow));
        return Err(EscrowError::Ledger(LedgerError::AddressOccupied));
    }
    ledger.open(escrow);
    Ok(())
}

/// The buyer confirms the sale: the record closes and its value goes to the
/// seller, whose identity is returned.
pub fn complete_sale(ledger: &mut Ledger, ctx: &CompleteSale) -> (outcome: Result<Identity, EscrowError>)
    ensures
        outcome == complete_sale_outcome(old(ledger)@, *ctx),
        final(ledger)@ == complete_sale_next(old(ledger)@, *ctx),
{
    match require_signer(&ctx.buyer) {
        Err(e) => {
            return Err(e);
        },
        Ok(()) => {},
    }
    match ledger.close(&ctx.buyer.key, &ctx.seller.key) {
        Err(e) => Err(e),
        Ok(()) => Ok(ctx.seller.key),
    }
}

/// The seller declines the sale: the record closes and its value goes back to
/// the buyer, whose identity is returned.
pub fn refund_buyer(ledger: &mut Ledger, ctx: &RefundBuyer) -> (outcome: Result<Identity, EscrowError>)
    ensures
        outcome == refund_buyer_outcome(old(ledger)@, *ctx),
        final(ledger)@ == refund_buyer_next(old(ledger)@, *ctx),
{
    match require_signer(&ctx.seller) {
        Err(e) => {
            return Err(e);
        },
        Ok(()) => {},
    }
    match ledger.close(&ctx.buyer.key, &ctx.seller.key) {
        Err(e) => Err(e),
        Ok(()) => Ok(ctx.buyer.key),
    }
}

/// The arbiter, by its own signature, closes the record in favour of the party
/// that `ruling` names, whose identity is returned.
pub fn authority_override(ledger: &mut Ledger, ctx: &AuthorityOverride, ruling: AuthorityRuling) -> (outcome:
    Result<Identity, EscrowError>)
    ensures
        outcome == authority_override_outcome(old(ledger)@, *ctx, ruling),
        final(ledger)@ == authority_override_next(old(ledger)@, *ctx, ruling),
{
    let settings = match ledger.authority_settings {
        None => {
            return Err(EscrowError::Ledger(LedgerError::RecordNotFound));
        },
        Some(settings) => settings,
    };
    match require_authority(&settings, &ctx.authority) {
        Err(e) => {
            return Err(e);
        },
        Ok(()) => {},
    }
    let recipient = ruling_recipient(ctx, ruling);
    match ledger.close(&ctx.buyer.key, &ctx.seller.key) {
        Err(e) => Err(e),
        Ok(()) => Ok(recipient),
    }
}

} // verus!
