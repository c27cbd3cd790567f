use escrow_core::store::EscrowStore;
use escrow_core::types::EscrowRecord;

fn rec(buyer: u64, amount: u128) -> EscrowRecord {
    EscrowRecord {
        buyer_id: buyer,
        seller_id: 3,
        locked_amount: amount,
        asset_contract_id: 7,
        purchased_quantity: 0,
        created_at: 0,
    }
}

#[test]
fn empty_store_has_nothing() {
    let s = EscrowStore::new();
    assert!(!s.contains(2));
    assert_eq!(s.get(2), None);
    assert!(s.all().is_empty());
}

#[test]
fn put_then_get_round_trips() {
    let mut s = EscrowStore::new();
    s.put(rec(2, 100));
    assert!(s.contains(2));
    assert_eq!(s.get(2), Some(rec(2, 100)));
    assert!(!s.contains(4));
}

#[test]
fn put_overwrites_the_record_for_the_same_buyer() {
    let mut s = EscrowStore::new();
    s.put(rec(2, 100));
    s.put(rec(2, 250));
    assert_eq!(s.get(2), Some(rec(2, 250)));
    assert_eq!(s.all().len(), 1);
}

#[test]
fn remove_deletes_only_the_given_buyer() {
    let mut s = EscrowStore::new();
    s.put(rec(2, 100));
    s.put(rec(4, 80));
    s.remove(2);
    assert_eq!(s.get(2), None);
    assert_eq!(s.get(4), Some(rec(4, 80)));
    s.remove(9);
    assert_eq!(s.all().len(), 1);
}

#[test]
fn all_reports_records_in_store_order() {
    let mut s = EscrowStore::new();
    s.put(rec(2, 100));
    s.put(rec(4, 80));
    s.put(rec(6, 60));
    let snapshot = s.all();
    assert_eq!(snapshot, vec![rec(2, 100), rec(4, 80), rec(6, 60)]);
}
