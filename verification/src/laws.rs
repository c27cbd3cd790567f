//! Laws the coordinator obeys, stated over the same views and spec functions
//! its contracts use, and proved once for every state and input.

use vstd::prelude::*;

use crate::escrow::{activated_record, initiated_record, EscrowContract};
use crate::store::EscrowStore;
use crate::types::{AssetGiveback, EscrowError, PurchaseResolution, TransferAction};

verus! {

/// At most one escrow record exists per buyer: in a well-formed store, two
/// entries for the same buyer are one and the same entry.
pub proof fn lemma_at_most_one_record_per_buyer(store: EscrowStore, i: int, j: int)
    requires
        store.wf(),
        0 <= i < store.records().len(),
        0 <= j < store.records().len(),
        store.records()[i].buyer_id == store.records()[j].buyer_id,
    ensures
        i == j,
{
}

/// Every existing record locks a strictly positive amount.
pub proof fn lemma_locked_amount_positive(c: EscrowContract, buyer: u64)
    requires
        c.wf(),
        c.store.as_map().contains_key(buyer),
    ensures
        c.store.as_map()[buyer].locked_amount > 0,
{
}

/// An initiation whose purchase continuation confirms `quantity` units
/// leaves the escrow active with exactly that quantity, and `view_pending`
/// then reports the seller, the locked amount and the creation time.
///
/// `pre` is the coordinator before `purchase_in_escrow`, `mid` the one it
/// leaves behind, `post` the one `purchase_escrow_callback` leaves behind;
/// the premises are those functions' postconditions on their success paths.
/// A confirmation always carries at least one unit, since the asset ledger
/// only confirms a purchase of a whole number of units at a positive price.
pub proof fn lemma_initiate_then_confirm(
    pre: EscrowContract,
    mid: EscrowContract,
    post: EscrowContract,
    buyer: u64,
    seller: u64,
    asset_contract_id: u64,
    attached: u128,
    now: u64,
    quantity: u128,
)
    requires
        pre.wf(),
        pre.initiate_result(buyer, seller, asset_contract_id, attached) is Ok,
        mid.store.as_map() == pre.store.as_map().insert(
            buyer,
            initiated_record(buyer, seller, asset_contract_id, attached, now),
        ),
        post.store.as_map() == mid.store.as_map().insert(
            buyer,
            activated_record(mid.store.as_map()[buyer], quantity),
        ),
        quantity > 0,
    ensures
        mid.callback_result(buyer, Some(quantity), 0) == Ok::<PurchaseResolution, EscrowError>(
            PurchaseResolution::Confirmed,
        ),
        post.is_active(buyer),
        post.store.as_map()[buyer].purchased_quantity == quantity,
        post.pending_view(buyer) == Some((seller, attached, now)),
{
}

/// An initiation whose purchase continuation fails refunds the buyer the
/// full locked amount, deletes the record, and `view_pending` then reports
/// nothing.
///
/// `pre`, `mid` and `post` are as in `lemma_initiate_then_confirm`; the
/// premises are the postconditions of `purchase_in_escrow` on success and of
/// `purchase_escrow_callback` on its refund path.
pub proof fn lemma_initiate_then_fail_refunds(
    pre: EscrowContract,
    mid: EscrowContract,
    post: EscrowContract,
    buyer: u64,
    seller: u64,
    asset_contract_id: u64,
    attached: u128,
    now: u64,
    own_balance: u128,
    refund: TransferAction,
)
    requires
        pre.wf(),
        pre.initiate_result(buyer, seller, asset_contract_id, attached) is Ok,
        mid.store.as_map() == pre.store.as_map().insert(
            buyer,
            initiated_record(buyer, seller, asset_contract_id, attached, now),
        ),
        mid.callback_result(buyer, None, own_balance) == Ok::<PurchaseResolution, EscrowError>(
            PurchaseResolution::Refunded(refund),
        ),
        post.store.as_map() == mid.store.as_map().remove(buyer),
    ensures
        refund == (TransferAction { to: buyer, amount: attached }),
        !post.store.as_map().contains_key(buyer),
        post.pending_view(buyer) is None,
{
}

/// After a successful cancellation no record remains for the buyer, so a
/// second `cancel_purchase` in a row reports that no escrow was found — and,
/// by that function's contract, changes nothing and refunds nothing.
pub proof fn lemma_cancel_twice(
    pre: EscrowContract,
    post: EscrowContract,
    buyer: u64,
    first_balance: u128,
    second_balance: u128,
)
    requires
        pre.wf(),
        pre.cancel_result(buyer, first_balance) is Ok,
        post.store.as_map() == pre.store.as_map().remove(buyer),
    ensures
        !post.store.as_map().contains_key(buyer),
        post.cancel_result(buyer, second_balance) == Err::<
            (TransferAction, AssetGiveback),
            EscrowError,
        >(EscrowError::NoEscrowFound),
{
}

/// Initiation with the seller equal to the buyer is always rejected — and,
/// by `purchase_in_escrow`'s contract, a rejection writes no state.
pub proof fn lemma_initiate_rejects_self_sale(
    c: EscrowContract,
    buyer: u64,
    seller: u64,
    asset_contract_id: u64,
    attached: u128,
)
    requires
        seller == buyer,
    ensures
        c.initiate_result(buyer, seller, asset_contract_id, attached) is Err,
{
}

/// Initiation with an attached value that does not strictly exceed the fee
/// reserve is always rejected — and, by `purchase_in_escrow`'s contract, a
/// rejection writes no state.
pub proof fn lemma_initiate_rejects_low_value(
    c: EscrowContract,
    buyer: u64,
    seller: u64,
    asset_contract_id: u64,
    attached: u128,
)
    requires
        attached <= c.fee_reserve,
    ensures
        c.initiate_result(buyer, seller, asset_contract_id, attached) == Err::<
            crate::types::PurchaseRequest,
            EscrowError,
        >(EscrowError::NonPositiveAmount),
{
}

} // verus!
