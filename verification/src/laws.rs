//! What holds of the operations taken together, stated over the ledger's
//! mathematical value and proved from the transitions' definitions.

use vstd::prelude::*;
use crate::context::{AuthorityOverride, CompleteSale, CreateEscrow, RefundBuyer, SetAuthority};
use crate::error::{EscrowError, LedgerError};
use crate::identity::Identity;
use crate::ledger::{
    authority_override_next, authority_override_outcome, complete_sale_next, complete_sale_outcome,
    create_escrow_next, create_escrow_outcome, refund_buyer_next, refund_buyer_outcome,
    set_authority_next, set_authority_outcome, LedgerView,
};
use crate::state::{AuthorityRuling, AuthoritySettings, Escrow};

verus! {

/// The rejection of a request that looks for a record where none stands.
pub open spec fn not_found() -> EscrowError {
    EscrowError::Ledger(LedgerError::RecordNotFound)
}

/// Each of the three terminal requests is rejected from `s` and leaves `s` as
/// it is; the rejection is record-not-found wherever the request passes the
/// checks on who asks.
pub open spec fn terminal_operations_rejected(
    s: LedgerView,
    sale: CompleteSale,
    refund: RefundBuyer,
    over: AuthorityOverride,
    ruling: AuthorityRuling,
) -> bool {
    &&& complete_sale_outcome(s, sale) is Err
    &&& complete_sale_next(s, sale) == s
    &&& sale.buyer.is_signer ==> complete_sale_outcome(s, sale) == Err::<Identity, EscrowError>(not_found())
    &&& refund_buyer_outcome(s, refund) is Err
    &&& refund_buyer_next(s, refund) == s
    &&& refund.seller.is_signer ==> refund_buyer_outcome(s, refund) == Err::<Identity, EscrowError>(
        not_found(),
    )
    &&& authority_override_outcome(s, over, ruling) is Err
    &&& authority_override_next(s, over, ruling) == s
    &&& over.authority.is_signer && s.authority_settings == Some(
        AuthoritySettings { address: over.authority.key },
    ) ==> authority_override_outcome(s, over, ruling) == Err::<Identity, EscrowError>(not_found())
}

/// The three requests all name the pair of `e`.
pub open spec fn name_pair(e: Escrow, sale: CompleteSale, refund: RefundBuyer, over: AuthorityOverride) -> bool {
    &&& sale.buyer.key == e.buyer && sale.seller.key == e.seller
    &&& refund.buyer.key == e.buyer && refund.seller.key == e.seller
    &&& over.buyer.key == e.buyer && over.seller.key == e.seller
}

/// Once a pair has an open record, a second `create_escrow` for the same pair
/// is rejected, as an occupied address wherever payer and buyer signed, and the
/// ledger with the first record in it stays as it is.
pub proof fn law_duplicate_create_rejected(
    s: LedgerView,
    first: CreateEscrow,
    second: CreateEscrow,
    seller: Identity,
)
    requires
        create_escrow_outcome(s, first, seller) is Ok,
        second.buyer.key == first.buyer.key,
    ensures
        ({
            let s1 = create_escrow_next(s, first, seller);
            &&& s1.escrows.contains(Escrow { buyer: first.buyer.key, seller })
            &&& create_escrow_outcome(s1, second, seller) is Err
            &&& second.payer.is_signer && second.buyer.is_signer ==> create_escrow_outcome(
                s1,
                second,
                seller,
            ) == Err::<(), EscrowError>(EscrowError::Ledger(LedgerError::AddressOccupied))
            &&& create_escrow_next(s1, second, seller) == s1
        }),
{
}

/// `complete_sale` closes a record only on the signature of its stored buyer.
/// Asked by anyone else, it leaves the record open; it is rejected for want
/// of a signature, or for want of a record where the one who signed is the
/// buyer of none with that seller, and a rejection changes nothing.
pub proof fn law_complete_sale_needs_buyer(s: LedgerView, ctx: CompleteSale, e: Escrow)
    requires
        s.escrows.contains(e),
        !(ctx.buyer.is_signer && ctx.buyer.key == e.buyer),
    ensures
        complete_sale_next(s, ctx).escrows.contains(e),
        !ctx.buyer.is_signer ==> complete_sale_outcome(s, ctx) == Err::<Identity, EscrowError>(
            EscrowError::Ledger(LedgerError::MissingSignature),
        ),
        ctx.buyer.is_signer && !s.escrows.contains(
            Escrow { buyer: ctx.buyer.key, seller: ctx.seller.key },
        ) ==> complete_sale_outcome(s, ctx) == Err::<Identity, EscrowError>(not_found()),
        complete_sale_outcome(s, ctx) is Err ==> complete_sale_next(s, ctx) == s,
{
}

/// `refund_buyer` closes a record only on the signature of its stored seller.
/// Asked by anyone else, it leaves the record open; it is rejected for want
/// of a signature, or for want of a record where the one who signed is the
/// seller of none with that buyer, and a rejection changes nothing.
pub proof fn law_refund_buyer_needs_seller(s: LedgerView, ctx: RefundBuyer, e: Escrow)
    requires
        s.escrows.contains(e),
        !(ctx.seller.is_signer && ctx.seller.key == e.seller),
    ensures
        refund_buyer_next(s, ctx).escrows.contains(e),
        !ctx.seller.is_signer ==> refund_buyer_outcome(s, ctx) == Err::<Identity, EscrowError>(
            EscrowError::Ledger(LedgerError::MissingSignature),
        ),
        ctx.seller.is_signer && !s.escrows.contains(
            Escrow { buyer: ctx.buyer.key, seller: ctx.seller.key },
        ) ==> refund_buyer_outcome(s, ctx) == Err::<Identity, EscrowError>(not_found()),
        refund_buyer_outcome(s, ctx) is Err ==> refund_buyer_next(s, ctx) == s,
{
}

/// An override that the registered arbiter did not sign, whether it names
/// another identity or names the arbiter without its signature, is rejected
/// as an authority mismatch, whatever the ruling, and changes nothing.
pub proof fn law_override_needs_authority(s: LedgerView, ctx: AuthorityOverride, ruling: AuthorityRuling)
    requires
        s.authority_settings matches Some(settings) && (settings.address != ctx.authority.key
            || !ctx.authority.is_signer),
    ensures
        authority_override_outcome(s, ctx, ruling) == Err::<Identity, EscrowError>(
            EscrowError::AuthorityMismatch,
        ),
        authority_override_next(s, ctx, ruling) == s,
{
}

/// No terminal operation succeeds on a pair that has no open record.
pub proof fn law_closed_pair_rejects(
    s: LedgerView,
    e: Escrow,
    sale: CompleteSale,
    refund: RefundBuyer,
    over: AuthorityOverride,
    ruling: AuthorityRuling,
)
    requires
        !s.escrows.contains(e),
        name_pair(e, sale, refund, over),
    ensures
        terminal_operations_rejected(s, sale, refund, over, ruling),
{
}

/// After a successful `complete_sale` the pair has no record: every terminal
/// operation on it is rejected.
pub proof fn law_complete_sale_is_final(
    s: LedgerView,
    first: CompleteSale,
    sale: CompleteSale,
    refund: RefundBuyer,
    over: AuthorityOverride,
    ruling: AuthorityRuling,
)
    requires
        complete_sale_outcome(s, first) is Ok,
        name_pair(Escrow { buyer: first.buyer.key, seller: first.seller.key }, sale, refund, over),
    ensures
        terminal_operations_rejected(
            complete_sale_next(s, first),
            sale,
            refund,
            over,
            ruling,
        ),
{
}

/// After a successful `refund_buyer` the pair has no record: every terminal
/// operation on it is rejected.
pub proof fn law_refund_buyer_is_final(
    s: LedgerView,
    first: RefundBuyer,
    sale: CompleteSale,
    refund: RefundBuyer,
    over: AuthorityOverride,
    ruling: AuthorityRuling,
)
    requires
        refund_buyer_outcome(s, first) is Ok,
        name_pair(Escrow { buyer: first.buyer.key, seller: first.seller.key }, sale, refund, over),
    ensures
        terminal_operations_rejected(
            refund_buyer_next(s, first),
            sale,
            refund,
            over,
            ruling,
        ),
{
}

/// After a successful `authority_override` the pair has no record: every
/// terminal operation on it is rejected.
pub proof fn law_authority_override_is_final(
    s: LedgerView,
    first: AuthorityOverride,
    first_ruling: AuthorityRuling,
    sale: CompleteSale,
    refund: RefundBuyer,
    over: AuthorityOverride,
    ruling: AuthorityRuling,
)
    requires
        authority_override_outcome(s, first, first_ruling) is Ok,
        name_pair(Escrow { buyer: first.buyer.key, seller: first.seller.key }, sale, refund, over),
    ensures
        terminal_operations_rejected(
            authority_override_next(s, first, first_ruling),
            sale,
            refund,
            over,
            ruling,
        ),
{
}

/// A closed pair can be opened again: after any terminal operation has
/// succeeded, `create_escrow` for the same pair succeeds when payer and buyer sign.
pub proof fn law_closed_pair_reopens(s: LedgerView, e: Escrow, ctx: CreateEscrow)
    requires
        !s.escrows.contains(e),
        ctx.payer.is_signer,
        ctx.buyer.is_signer,
        ctx.buyer.key == e.buyer,
    ensures
        create_escrow_outcome(s, ctx, e.seller) is Ok,
        create_escrow_next(s, ctx, e.seller).escrows.contains(e),
{
}

/// Of two successful `set_authority` calls the second decides: the arbiter is
/// the identity it gave, and the next override accepts that identity alone,
/// and only as a signer.
pub proof fn law_last_authority_wins(
    s: LedgerView,
    first: SetAuthority,
    x: Identity,
    second: SetAuthority,
    y: Identity,
    over: AuthorityOverride,
    ruling: AuthorityRuling,
)
    requires
        set_authority_outcome(s, first) is Ok,
        set_authority_outcome(set_authority_next(s, first, x), second) is Ok,
    ensures
        ({
            let s2 = set_authority_next(set_authority_next(s, first, x), second, y);
            &&& s2.authority_settings == Some(AuthoritySettings { address: y })
            &&& s2.escrows == s.escrows
            &&& over.authority.key != y || !over.authority.is_signer ==> authority_override_outcome(
                s2,
                over,
                ruling,
            ) == Err::<Identity, EscrowError>(EscrowError::AuthorityMismatch)
            &&& authority_override_outcome(s2, over, ruling) is Ok ==> over.authority.key == y
                && over.authority.is_signer
        }),
{
}

/// Setting the same arbiter twice is the same as setting it once.
pub proof fn law_set_authority_idempotent(s: LedgerView, ctx: SetAuthority, x: Identity)
    ensures
        set_authority_next(set_authority_next(s, ctx, x), ctx, x) == set_authority_next(s, ctx, x),
{
}

/// The arbiter's settings, once created, are never removed, and only
/// `set_authority` changes them; no operation changes the upgrade controller.
pub proof fn law_settings_outlive_escrows(
    s: LedgerView,
    set: SetAuthority,
    authority: Identity,
    create: CreateEscrow,
    seller: Identity,
    sale: CompleteSale,
    refund: RefundBuyer,
    over: AuthorityOverride,
    ruling: AuthorityRuling,
)
    ensures
        s.authority_settings is Some ==> set_authority_next(s, set, authority).authority_settings is Some,
        set_authority_next(s, set, authority).upgrade_authority == s.upgrade_authority,
        set_authority_next(s, set, authority).escrows == s.escrows,
        create_escrow_next(s, create, seller).authority_settings == s.authority_settings,
        create_escrow_next(s, create, seller).upgrade_authority == s.upgrade_authority,
        complete_sale_next(s, sale).authority_settings == s.authority_settings,
        complete_sale_next(s, sale).upgrade_authority == s.upgrade_authority,
        refund_buyer_next(s, refund).authority_settings == s.authority_settings,
        refund_buyer_next(s, refund).upgrade_authority == s.upgrade_authority,
        authority_override_next(s, over, ruling).authority_settings == s.authority_settings,
        authority_override_next(s, over, ruling).upgrade_authority == s.upgrade_authority,
{
}

/// A rejected request changes nothing: whenever an operation ends in an error,
/// the ledger after it is the ledger before it.
pub proof fn law_rejection_changes_nothing(
    s: LedgerView,
    set: SetAuthority,
    authority: Identity,
    create: CreateEscrow,
    seller: Identity,
    sale: CompleteSale,
    refund: RefundBuyer,
    over: AuthorityOverride,
    ruling: AuthorityRuling,
)
    ensures
        set_authority_outcome(s, set) is Err ==> set_authority_next(s, set, authority) == s,
        create_escrow_outcome(s, create, seller) is Err ==> create_escrow_next(s, create, seller) == s,
        complete_sale_outcome(s, sale) is Err ==> complete_sale_next(s, sale) == s,
        refund_buyer_outcome(s, refund) is Err ==> refund_buyer_next(s, refund) == s,
        authority_override_outcome(s, over, ruling) is Err ==> authority_override_next(s, over, ruling)
            == s,
{
}

/// A terminal operation that succeeds closes the record of the pair it names
/// and names the recipient: the seller for `complete_sale`, the buyer for
/// `refund_buyer`, the party of the ruling for `authority_override`.
pub proof fn law_terminal_closes_and_pays(
    s: LedgerView,
    sale: CompleteSale,
    refund: RefundBuyer,
    over: AuthorityOverride,
    ruling: AuthorityRuling,
)
    ensures
        complete_sale_outcome(s, sale) is Ok ==> {
            &&& complete_sale_outcome(s, sale) == Ok::<Identity, EscrowError>(sale.seller.key)
            &&& s.escrows.contains(Escrow { buyer: sale.buyer.key, seller: sale.seller.key })
            &&& !complete_sale_next(s, sale).escrows.contains(
                Escrow { buyer: sale.buyer.key, seller: sale.seller.key },
            )
        },
        refund_buyer_outcome(s, refund) is Ok ==> {
            &&& refund_buyer_outcome(s, refund) == Ok::<Identity, EscrowError>(refund.buyer.key)
            &&& s.escrows.contains(Escrow { buyer: refund.buyer.key, seller: refund.seller.key })
            &&& !refund_buyer_next(s, refund).escrows.contains(
                Escrow { buyer: refund.buyer.key, seller: refund.seller.key },
            )
        },
        authority_override_outcome(s, over, ruling) is Ok ==> {
            &&& authority_override_outcome(s, over, ruling) == Ok::<Identity, EscrowError>(
                match ruling {
                    AuthorityRuling::Buyer => over.buyer.key,
                    AuthorityRuling::Seller => over.seller.key,
                },
            )
            &&& s.escrows.contains(Escrow { buyer: over.buyer.key, seller: over.seller.key })
            &&& !authority_override_next(s, over, ruling).escrows.contains(
                Escrow { buyer: over.buyer.key, seller: over.seller.key },
            )
        },
{
}

/// An operation touches the record of its own pair at most: every other open
/// record stays open, and none appears but the one that `create_escrow` opens.
pub proof fn law_other_records_untouched(
    s: LedgerView,
    e: Escrow,
    create: CreateEscrow,
    seller: Identity,
    sale: CompleteSale,
    refund: RefundBuyer,
    over: AuthorityOverride,
    ruling: AuthorityRuling,
)
    ensures
        e != (Escrow { buyer: create.buyer.key, seller }) ==> (create_escrow_next(
            s,
            create,
            seller,
        ).escrows.contains(e) <==> s.escrows.contains(e)),
        e != (Escrow { buyer: sale.buyer.key, seller: sale.seller.key }) ==> (complete_sale_next(
            s,
            sale,
        ).escrows.contains(e) <==> s.escrows.contains(e)),
        e != (Escrow { buyer: refund.buyer.key, seller: refund.seller.key }) ==> (refund_buyer_next(
            s,
            refund,
        ).escrows.contains(e) <==> s.escrows.contains(e)),
        e != (Escrow { buyer: over.buyer.key, seller: over.seller.key }) ==> (authority_override_next(
            s,
            over,
            ruling,
        ).escrows.contains(e) <==> s.escrows.contains(e)),
{
}

} // verus!
