use escrow_core::escrow::EscrowContract;
use escrow_core::types::{EscrowError, PurchaseResolution, TransferAction};

const COORDINATOR: u64 = 1;
const BUYER: u64 = 2;
const SELLER: u64 = 3;
const LEDGER: u64 = 7;
const DAY: u64 = 86_400;

fn coordinator() -> EscrowContract {
    EscrowContract::new(COORDINATOR, 5, DAY)
}

#[test]
fn initiate_writes_record_and_requests_purchase() {
    let mut c = coordinator();
    let req = c.purchase_in_escrow(BUYER, SELLER, LEDGER, 100, 1000).unwrap();
    assert_eq!(req.asset_contract_id, LEDGER);
    assert_eq!(req.seller_id, SELLER);
    assert_eq!(req.buyer_id, BUYER);
    assert_eq!(req.amount, 95);
    assert_eq!(c.view_pending_escrow(BUYER), Some((SELLER, 100, 1000)));
}

#[test]
fn initiate_rejects_value_at_or_below_fee_reserve() {
    let mut c = coordinator();
    assert_eq!(
        c.purchase_in_escrow(BUYER, SELLER, LEDGER, 5, 1000),
        Err(EscrowError::NonPositiveAmount)
    );
    assert_eq!(
        c.purchase_in_escrow(BUYER, SELLER, LEDGER, 0, 1000),
        Err(EscrowError::NonPositiveAmount)
    );
    assert_eq!(c.view_pending_escrow(BUYER), None);
}

#[test]
fn initiate_rejects_seller_equal_to_buyer() {
    let mut c = coordinator();
    assert_eq!(
        c.purchase_in_escrow(BUYER, BUYER, LEDGER, 100, 1000),
        Err(EscrowError::SellerIsBuyer)
    );
    assert_eq!(c.view_pending_escrow(BUYER), None);
}

#[test]
fn initiate_rejects_coordinator_as_buyer() {
    let mut c = coordinator();
    assert_eq!(
        c.purchase_in_escrow(COORDINATOR, SELLER, LEDGER, 100, 1000),
        Err(EscrowError::SelfEscrow)
    );
    assert_eq!(c.view_pending_escrow(COORDINATOR), None);
}

#[test]
fn initiate_rejects_second_escrow_for_same_buyer() {
    let mut c = coordinator();
    c.purchase_in_escrow(BUYER, SELLER, LEDGER, 100, 1000).unwrap();
    assert_eq!(
        c.purchase_in_escrow(BUYER, SELLER, LEDGER, 200, 1001),
        Err(EscrowError::DoubleEscrow)
    );
    // The pending escrow is the first one, untouched.
    assert_eq!(c.view_pending_escrow(BUYER), Some((SELLER, 100, 1000)));
}

#[test]
fn confirmed_purchase_activates_the_escrow() {
    let mut c = coordinator();
    c.purchase_in_escrow(BUYER, SELLER, LEDGER, 100, 1000).unwrap();
    let resolution = c.purchase_escrow_callback(BUYER, Some(10), 0).unwrap();
    assert_eq!(resolution, PurchaseResolution::Confirmed);
    assert_eq!(c.view_pending_escrow(BUYER), Some((SELLER, 100, 1000)));
}

#[test]
fn failed_purchase_refunds_the_full_locked_amount() {
    let mut c = coordinator();
    let mut buyer_balance: u128 = 0;
    c.purchase_in_escrow(BUYER, SELLER, LEDGER, 100, 1000).unwrap();
    let resolution = c.purchase_escrow_callback(BUYER, None, 500).unwrap();
    match resolution {
        PurchaseResolution::Refunded(t) => {
            assert_eq!(t, TransferAction { to: BUYER, amount: 100 });
            buyer_balance += t.amount;
        }
        PurchaseResolution::Confirmed => panic!("the purchase did not fail"),
    }
    assert_eq!(buyer_balance, 100);
    assert_eq!(c.view_pending_escrow(BUYER), None);
}

#[test]
fn callback_without_a_record_is_rejected() {
    let mut c = coordinator();
    assert_eq!(
        c.purchase_escrow_callback(BUYER, Some(10), 500),
        Err(EscrowError::NoEscrowFound)
    );
    assert_eq!(
        c.purchase_escrow_callback(BUYER, None, 500),
        Err(EscrowError::NoEscrowFound)
    );
}

#[test]
fn refund_needs_a_sufficient_coordinator_balance() {
    let mut c = coordinator();
    c.purchase_in_escrow(BUYER, SELLER, LEDGER, 100, 1000).unwrap();
    assert_eq!(
        c.purchase_escrow_callback(BUYER, None, 99),
        Err(EscrowError::InvariantViolation)
    );
    // The failed refund aborted the operation with no partial effects.
    assert_eq!(c.view_pending_escrow(BUYER), Some((SELLER, 100, 1000)));
}

#[test]
fn approve_pays_the_seller_net_of_the_fee_reserve() {
    // A buyer locks 100 with a fee reserve of 5; the ledger confirms 10
    // units; approval pays the seller 95 and clears the record.
    let mut c = coordinator();
    let mut seller_balance: u128 = 0;
    c.purchase_in_escrow(BUYER, SELLER, LEDGER, 100, 1000).unwrap();
    c.purchase_escrow_callback(BUYER, Some(10), 0).unwrap();
    let payout = c.approve_purchase(BUYER, 1_000).unwrap();
    assert_eq!(payout, TransferAction { to: SELLER, amount: 95 });
    seller_balance += payout.amount;
    assert_eq!(seller_balance, 95);
    assert_eq!(c.view_pending_escrow(BUYER), None);
}

#[test]
fn approve_rejects_an_unresolved_escrow() {
    let mut c = coordinator();
    c.purchase_in_escrow(BUYER, SELLER, LEDGER, 100, 1000).unwrap();
    assert_eq!(c.approve_purchase(BUYER, 1_000), Err(EscrowError::NotActive));
    assert_eq!(c.view_pending_escrow(BUYER), Some((SELLER, 100, 1000)));
}

#[test]
fn approve_without_a_record_is_rejected() {
    let mut c = coordinator();
    assert_eq!(c.approve_purchase(BUYER, 1_000), Err(EscrowError::NoEscrowFound));
}

#[test]
fn approve_rejects_a_seller_equal_to_the_coordinator() {
    let mut c = coordinator();
    c.purchase_in_escrow(BUYER, COORDINATOR, LEDGER, 100, 1000).unwrap();
    c.purchase_escrow_callback(BUYER, Some(10), 0).unwrap();
    assert_eq!(
        c.approve_purchase(BUYER, 1_000),
        Err(EscrowError::InvariantViolation)
    );
    assert_eq!(c.view_pending_escrow(BUYER), Some((COORDINATOR, 100, 1000)));
}

#[test]
fn cancel_refunds_the_buyer_and_hands_back_the_assets() {
    let mut c = coordinator();
    c.purchase_in_escrow(BUYER, SELLER, LEDGER, 100, 1000).unwrap();
    c.purchase_escrow_callback(BUYER, Some(10), 0).unwrap();
    let (refund, giveback) = c.cancel_purchase(BUYER, 1_000).unwrap();
    assert_eq!(refund, TransferAction { to: BUYER, amount: 100 });
    assert_eq!(giveback.asset_contract_id, LEDGER);
    assert_eq!(giveback.quantity, 10);
    assert_eq!(giveback.from_id, BUYER);
    assert_eq!(giveback.to_id, SELLER);
    assert_eq!(c.view_pending_escrow(BUYER), None);
}

#[test]
fn cancel_twice_fails_without_a_second_refund() {
    let mut c = coordinator();
    let mut refunds: u128 = 0;
    c.purchase_in_escrow(BUYER, SELLER, LEDGER, 100, 1000).unwrap();
    c.purchase_escrow_callback(BUYER, Some(10), 0).unwrap();
    let (refund, _) = c.cancel_purchase(BUYER, 1_000).unwrap();
    refunds += refund.amount;
    let second = c.cancel_purchase(BUYER, 1_000);
    assert_eq!(second, Err(EscrowError::NoEscrowFound));
    assert_eq!(
        EscrowError::NoEscrowFound.message(),
        "No escrow purchase found for this buyer"
    );
    assert_eq!(refunds, 100);
}

#[test]
fn settled_buyer_can_escrow_again() {
    let mut c = coordinator();
    c.purchase_in_escrow(BUYER, SELLER, LEDGER, 100, 1000).unwrap();
    c.purchase_escrow_callback(BUYER, Some(10), 0).unwrap();
    c.cancel_purchase(BUYER, 1_000).unwrap();
    let req = c.purchase_in_escrow(BUYER, SELLER, LEDGER, 60, 2000).unwrap();
    assert_eq!(req.amount, 55);
    assert_eq!(c.view_pending_escrow(BUYER), Some((SELLER, 60, 2000)));
}

#[test]
fn sweep_settles_an_expired_record_without_buyer_action() {
    // Created at T0 with a window of one day: a sweep one second past the
    // window pays the seller and clears the record.
    let t0: u64 = 1_000;
    let mut c = coordinator();
    c.purchase_in_escrow(BUYER, SELLER, LEDGER, 100, t0).unwrap();
    let actions = c.escrow_timeout_scan(t0 + DAY + 1, 1_000).unwrap();
    assert_eq!(actions, vec![TransferAction { to: SELLER, amount: 95 }]);
    assert_eq!(c.view_pending_escrow(BUYER), None);
}

#[test]
fn sweep_leaves_records_inside_the_window_alone() {
    let t0: u64 = 1_000;
    let mut c = coordinator();
    c.purchase_in_escrow(BUYER, SELLER, LEDGER, 100, t0).unwrap();
    let actions = c.escrow_timeout_scan(t0 + DAY, 1_000).unwrap();
    assert!(actions.is_empty());
    assert_eq!(c.view_pending_escrow(BUYER), Some((SELLER, 100, t0)));
}

#[test]
fn sweep_settles_only_the_expired_records() {
    let other_buyer: u64 = 4;
    let mut c = coordinator();
    c.purchase_in_escrow(BUYER, SELLER, LEDGER, 100, 0).unwrap();
    c.purchase_in_escrow(other_buyer, SELLER, LEDGER, 80, DAY).unwrap();
    let actions = c.escrow_timeout_scan(DAY + 2, 1_000).unwrap();
    assert_eq!(actions, vec![TransferAction { to: SELLER, amount: 95 }]);
    assert_eq!(c.view_pending_escrow(BUYER), None);
    assert_eq!(c.view_pending_escrow(other_buyer), Some((SELLER, 80, DAY)));
}

#[test]
fn sweep_pays_expired_records_in_store_order() {
    let mut c = coordinator();
    c.purchase_in_escrow(2, 3, LEDGER, 100, 0).unwrap();
    c.purchase_in_escrow(4, 6, LEDGER, 80, 10).unwrap();
    c.purchase_in_escrow(8, 9, LEDGER, 60, 20).unwrap();
    let actions = c.escrow_timeout_scan(DAY + 100, 1_000).unwrap();
    assert_eq!(
        actions,
        vec![
            TransferAction { to: 3, amount: 95 },
            TransferAction { to: 6, amount: 75 },
            TransferAction { to: 9, amount: 55 },
        ]
    );
}

#[test]
fn sweep_aborts_whole_when_a_settlement_cannot_be_paid() {
    let other_buyer: u64 = 4;
    let mut c = coordinator();
    c.purchase_in_escrow(BUYER, SELLER, LEDGER, 100, 0).unwrap();
    c.purchase_in_escrow(other_buyer, SELLER, LEDGER, 80, 0).unwrap();
    // 95 + 75 exceed the coordinator's balance of 100: nothing settles.
    assert_eq!(
        c.escrow_timeout_scan(DAY + 2, 100),
        Err(EscrowError::InvariantViolation)
    );
    assert_eq!(c.view_pending_escrow(BUYER), Some((SELLER, 100, 0)));
    assert_eq!(c.view_pending_escrow(other_buyer), Some((SELLER, 80, 0)));
}

#[test]
fn send_near_enforces_the_transfer_preconditions() {
    let c = coordinator();
    assert_eq!(c.send_near(SELLER, 0, 1_000), Err(EscrowError::InvariantViolation));
    assert_eq!(
        c.send_near(COORDINATOR, 10, 1_000),
        Err(EscrowError::InvariantViolation)
    );
    assert_eq!(c.send_near(SELLER, 1_001, 1_000), Err(EscrowError::InvariantViolation));
    assert_eq!(
        c.send_near(SELLER, 1_000, 1_000),
        Ok(TransferAction { to: SELLER, amount: 1_000 })
    );
}

#[test]
fn completed_near_transaction_settles_and_clears() {
    let mut c = coordinator();
    c.purchase_in_escrow(BUYER, SELLER, LEDGER, 100, 1000).unwrap();
    let t = c
        .completed_near_transaction(SELLER, 95, BUYER, 1_000)
        .unwrap();
    assert_eq!(t, TransferAction { to: SELLER, amount: 95 });
    assert_eq!(c.view_pending_escrow(BUYER), None);
}

#[test]
fn giveback_callback_only_reports_the_outcome() {
    let mut c = coordinator();
    c.purchase_in_escrow(BUYER, SELLER, LEDGER, 100, 1000).unwrap();
    assert!(c.transfer_asset_callback(true));
    assert!(!c.transfer_asset_callback(false));
    assert_eq!(c.view_pending_escrow(BUYER), Some((SELLER, 100, 1000)));
}

#[test]
fn cross_contract_transfer_asset_builds_the_request() {
    let c = coordinator();
    let g = c.cross_contract_transfer_asset(LEDGER, 10, BUYER, SELLER);
    assert_eq!(g.asset_contract_id, LEDGER);
    assert_eq!(g.quantity, 10);
    assert_eq!(g.from_id, BUYER);
    assert_eq!(g.to_id, SELLER);
}

#[test]
fn large_amounts_settle_without_overflow() {
    let mut c = coordinator();
    c.purchase_in_escrow(BUYER, SELLER, LEDGER, u128::MAX, u64::MAX - 1)
        .unwrap();
    c.purchase_escrow_callback(BUYER, Some(1), 0).unwrap();
    let payout = c.approve_purchase(BUYER, u128::MAX).unwrap();
    assert_eq!(payout.amount, u128::MAX - 5);
}

#[test]
fn error_messages_match_their_variants() {
    assert_eq!(
        EscrowError::NonPositiveAmount.message(),
        "Must attach a positive amount"
    );
    assert_eq!(
        EscrowError::DoubleEscrow.message(),
        "Can't escrow purchase twice before completing one first"
    );
    assert_eq!(EscrowError::SellerIsBuyer.message(), "Can't escrow to the same account");
    assert_eq!(
        EscrowError::SelfEscrow.message(),
        "Can't escrow from the contract itself"
    );
    assert_eq!(
        EscrowError::NoEscrowFound.message(),
        "No escrow purchase found for this buyer"
    );
    assert_eq!(
        EscrowError::NotActive.message(),
        "Can't approve escrow purchase before the purchase resolves"
    );
    assert_eq!(EscrowError::InvariantViolation.message(), "Escrow invariant violated");
}
