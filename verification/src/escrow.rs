//! The escrow coordinator: a state machine that validates requests, records
//! escrows, decides how each asset-ledger answer settles them, and emits the
//! value transfers and ledger requests the host must perform.
//!
//! Per buyer the states are: no record; `Escrowed` (record written, purchase
//! in flight, `purchased_quantity == 0`); `Active` (purchase confirmed,
//! `purchased_quantity > 0`); and settled (record gone). Settlement — approve,
//! cancel, refund after a failed purchase, or the timeout sweep — is the sole
//! deletion point.

use vstd::prelude::*;

use crate::store::EscrowStore;
use crate::types::{AssetGiveback, EscrowError, EscrowRecord, PurchaseRequest, PurchaseResolution,
    TransferAction};

verus! {

/// The record written when an escrow is initiated.
pub open spec fn initiated_record(
    buyer: u64,
    seller: u64,
    asset_contract_id: u64,
    attached: u128,
    now: u64,
) -> EscrowRecord {
    EscrowRecord {
        buyer_id: buyer,
        seller_id: seller,
        locked_amount: attached,
        asset_contract_id,
        purchased_quantity: 0,
        created_at: now,
    }
}

/// The record after the purchase continuation confirms `quantity` units.
pub open spec fn activated_record(rec: EscrowRecord, quantity: u128) -> EscrowRecord {
    EscrowRecord { purchased_quantity: quantity, ..rec }
}

pub struct EscrowContract {
    /// The coordinator's own principal; it never escrows with itself.
    pub own_id: u64,
    /// The fixed fee reserve: an escrow must attach strictly more than this,
    /// and settlement to the seller pays the locked value net of it.
    pub fee_reserve: u128,
    /// How much logical time may pass before the sweep force-settles a
    /// record.
    pub timeout_window: u64,
    /// One record per buyer with an escrow in flight.
    pub store: EscrowStore,
}

impl EscrowContract {
    /// Every stored record is keyed by its own buyer, names a buyer other
    /// than the coordinator and a seller other than the buyer, and locks
    /// strictly more than the fee reserve (so strictly more than zero).
    pub open spec fn wf(self) -> bool {
        &&& self.store.wf()
        &&& forall|b: u64|
            #[trigger] self.store.as_map().contains_key(b) ==> {
                &&& self.store.as_map()[b].buyer_id == b
                &&& b != self.own_id
                &&& self.store.as_map()[b].seller_id != b
                &&& self.store.as_map()[b].locked_amount > self.fee_reserve
            }
    }

    /// The configuration never changes; only the record set does.
    pub open spec fn same_config(self, post: Self) -> bool {
        &&& post.own_id == self.own_id
        &&& post.fee_reserve == self.fee_reserve
        &&& post.timeout_window == self.timeout_window
    }

    /// A record exists and its purchase leg has resolved.
    pub open spec fn is_active(self, buyer: u64) -> bool {
        &&& self.store.as_map().contains_key(buyer)
        &&& self.store.as_map()[buyer].purchased_quantity > 0
    }

    /// What the seller is paid when an escrow settles in their favour: the
    /// locked value net of the fee reserve.
    pub open spec fn settle_amount(self, rec: EscrowRecord) -> u128 {
        (rec.locked_amount - self.fee_reserve) as u128
    }

    /// The preconditions of an irreversible native-value transfer out of the
    /// coordinator's balance.
    pub open spec fn transfer_check(self, to: u64, amount: u128, own_balance: u128) -> bool {
        &&& amount > 0
        &&& to != self.own_id
        &&& amount <= own_balance
    }

    pub fn new(own_id: u64, fee_reserve: u128, timeout_window: u64) -> (c: Self)
        ensures
            c.wf(),
            c.own_id == own_id,
            c.fee_reserve == fee_reserve,
            c.timeout_window == timeout_window,
            c.store.as_map() == Map::<u64, EscrowRecord>::empty(),
            c.store.records() == Seq::<EscrowRecord>::empty(),
    {
        EscrowContract { own_id, fee_reserve, timeout_window, store: EscrowStore::new() }
    }

    /// Validate a native-value transfer and hand it to the host, without
    /// touching any record. A violated precondition is a defect in earlier
    /// guarding logic and rejects the transfer outright.
    pub fn send_near(&self, receiving_account_id: u64, amount: u128, own_balance: u128) -> (r:
        Result<TransferAction, EscrowError>)
        ensures
            r is Ok <==> self.transfer_check(receiving_account_id, amount, own_balance),
            r is Ok ==> r == Ok::<TransferAction, EscrowError>(
                (TransferAction { to: receiving_account_id, amount }),
            ),
            r is Err ==> r == Err::<TransferAction, EscrowError>(EscrowError::InvariantViolation),
    {
        if amount == 0 {
            return Err(EscrowError::InvariantViolation);
        }
        if receiving_account_id == self.own_id {
            return Err(EscrowError::InvariantViolation);
        }
        if amount > own_balance {
            return Err(EscrowError::InvariantViolation);
        }
        Ok(TransferAction { to: receiving_account_id, amount })
    }

    /// Settle an escrow: pay `amount` to `seller_account` and delete
    /// `buyer_account`'s record. Aborts with no partial effects when the
    /// transfer's preconditions do not hold.
    pub fn completed_near_transaction(
        &mut self,
        seller_account: u64,
        amount: u128,
        buyer_account: u64,
        own_balance: u128,
    ) -> (r: Result<TransferAction, EscrowError>)
        requires
            old(self).wf(),
        ensures
            final(self).wf(),
            old(self).same_config(*final(self)),
            r is Ok <==> old(self).transfer_check(seller_account, amount, own_balance),
            r is Err ==> r == Err::<TransferAction, EscrowError>(EscrowError::InvariantViolation)
                && *final(self) == *old(self),
            r is Ok ==> r == Ok::<TransferAction, EscrowError>(
                (TransferAction { to: seller_account, amount }),
            ) && final(self).store.as_map() == old(self).store.as_map().remove(buyer_account),
    {
        let action = match self.send_near(seller_account, amount, own_balance) {
            Ok(action) => action,
            Err(e) => {
                return Err(e);
            },
        };
        self.store.remove(buyer_account);
        proof {
            self.lemma_wf_after_remove(*old(self), buyer_account);
        }
        Ok(action)
    }

    /// Removing a record preserves well-formedness.
    proof fn lemma_wf_after_remove(self, pre: Self, buyer: u64)
        requires
            pre.wf(),
            pre.same_config(self),
            self.store.wf(),
            self.store.as_map() == pre.store.as_map().remove(buyer),
        ensures
            self.wf(),
    {
        assert forall|b: u64| #[trigger] self.store.as_map().contains_key(b) implies {
            &&& self.store.as_map()[b].buyer_id == b
            &&& b != self.own_id
            &&& self.store.as_map()[b].seller_id != b
            &&& self.store.as_map()[b].locked_amount > self.fee_reserve
        } by {
            assert(pre.store.as_map().contains_key(b));
            assert(self.store.as_map()[b] == pre.store.as_map()[b]);
        }
    }

    /// What `purchase_in_escrow` decides for given inputs: the first failing
    /// precondition, or the purchase request to send to the asset ledger.
    pub open spec fn initiate_result(
        self,
        buyer: u64,
        seller: u64,
        asset_contract_id: u64,
        attached: u128,
    ) -> Result<PurchaseRequest, EscrowError> {
        if attached <= self.fee_reserve {
            Err(EscrowError::NonPositiveAmount)
        } else if self.store.as_map().contains_key(buyer) {
            Err(EscrowError::DoubleEscrow)
        } else if seller == buyer {
            Err(EscrowError::SellerIsBuyer)
        } else if buyer == self.own_id {
            Err(EscrowError::SelfEscrow)
        } else {
            Ok(
                PurchaseRequest {
                    asset_contract_id,
                    seller_id: seller,
                    buyer_id: buyer,
                    amount: (attached - self.fee_reserve) as u128,
                },
            )
        }
    }

    /// Initiate an escrow: `buyer_account_id` locks `attached_amount` of
    /// native value against a purchase from `seller_account_id` on the given
    /// asset ledger. On success the record is written in state `Escrowed` and
    /// the returned purchase request must be sent to the asset ledger, its
    /// answer fed to `purchase_escrow_callback`. Any rejection leaves the
    /// coordinator untouched.
    pub fn purchase_in_escrow(
        &mut self,
        buyer_account_id: u64,
        seller_account_id: u64,
        asset_contract_id: u64,
        attached_amount: u128,
        now: u64,
    ) -> (r: Result<PurchaseRequest, EscrowError>)
        requires
            old(self).wf(),
        ensures
            final(self).wf(),
            old(self).same_config(*final(self)),
            r == old(self).initiate_result(
                buyer_account_id,
                seller_account_id,
                asset_contract_id,
                attached_amount,
            ),
            r is Err ==> *final(self) == *old(self),
            r is Ok ==> final(self).store.as_map() == old(self).store.as_map().insert(
                buyer_account_id,
                initiated_record(
                    buyer_account_id,
                    seller_account_id,
                    asset_contract_id,
                    attached_amount,
                    now,
                ),
            ),
            r is Ok ==> final(self).store.records() == old(self).store.records().push(
                initiated_record(
                    buyer_account_id,
                    seller_account_id,
                    asset_contract_id,
                    attached_amount,
                    now,
                ),
            ),
    {
        if attached_amount <= self.fee_reserve {
            return Err(EscrowError::NonPositiveAmount);
        }
        if self.store.contains(buyer_account_id) {
            return Err(EscrowError::DoubleEscrow);
        }
        if seller_account_id == buyer_account_id {
            return Err(EscrowError::SellerIsBuyer);
        }
        if buyer_account_id == self.own_id {
            return Err(EscrowError::SelfEscrow);
        }
        let rec = EscrowRecord {
            buyer_id: buyer_account_id,
            seller_id: seller_account_id,
            locked_amount: attached_amount,
            asset_contract_id,
            purchased_quantity: 0,
            created_at: now,
        };
        self.store.put(rec);
        proof {
            assert forall|b: u64| #[trigger] self.store.as_map().contains_key(b) implies {
                &&& self.store.as_map()[b].buyer_id == b
                &&& b != self.own_id
                &&& self.store.as_map()[b].seller_id != b
                &&& self.store.as_map()[b].locked_amount > self.fee_reserve
            } by {
                if b != buyer_account_id {
                    assert(old(self).store.as_map().contains_key(b));
                    assert(self.store.as_map()[b] == old(self).store.as_map()[b]);
                }
            }
        }
        Ok(
            PurchaseRequest {
                asset_contract_id,
                seller_id: seller_account_id,
                buyer_id: buyer_account_id,
                amount: attached_amount - self.fee_reserve,
            },
        )
    }

    /// What the purchase continuation decides: confirmation activates the
    /// record, failure refunds the buyer in full, an answer without a record
    /// is rejected, and an impossible refund aborts with no partial effects.
    pub open spec fn callback_result(
        self,
        buyer: u64,
        call_result: Option<u128>,
        own_balance: u128,
    ) -> Result<PurchaseResolution, EscrowError> {
        if !self.store.as_map().contains_key(buyer) {
            Err(EscrowError::NoEscrowFound)
        } else if call_result is Some {
            Ok(PurchaseResolution::Confirmed)
        } else if self.store.as_map()[buyer].locked_amount <= own_balance {
            Ok(
                PurchaseResolution::Refunded(
                    (TransferAction { to: buyer, amount: self.store.as_map()[buyer].locked_amount }),
                ),
            )
        } else {
            Err(EscrowError::InvariantViolation)
        }
    }

    /// The purchase continuation. `call_result` is the asset ledger's answer:
    /// `Some(quantity)` confirms the purchase and sets `purchased_quantity`;
    /// `None` means the purchase failed, so the buyer is refunded the full
    /// locked amount and the record is deleted.
    pub fn purchase_escrow_callback(
        &mut self,
        buyer_account_id: u64,
        call_result: Option<u128>,
        own_balance: u128,
    ) -> (r: Result<PurchaseResolution, EscrowError>)
        requires
            old(self).wf(),
        ensures
            final(self).wf(),
            old(self).same_config(*final(self)),
            r == old(self).callback_result(buyer_account_id, call_result, own_balance),
            r is Err ==> *final(self) == *old(self),
            r == Ok::<PurchaseResolution, EscrowError>(PurchaseResolution::Confirmed)
                ==> final(self).store.as_map() == old(self).store.as_map().insert(
                buyer_account_id,
                activated_record(
                    old(self).store.as_map()[buyer_account_id],
                    call_result.unwrap(),
                ),
            ),
            (r matches Ok(PurchaseResolution::Refunded(refund)) ==> final(self).store.as_map()
                == old(self).store.as_map().remove(buyer_account_id) && refund
                == (TransferAction {
                to: buyer_account_id,
                amount: old(self).store.as_map()[buyer_account_id].locked_amount,
            })),
    {
        let rec = match self.store.get(buyer_account_id) {
            Some(rec) => rec,
            None => {
                return Err(EscrowError::NoEscrowFound);
            },
        };
        match call_result {
            Some(quantity) => {
                let updated = EscrowRecord { purchased_quantity: quantity, ..rec };
                self.store.put(updated);
                proof {
                    assert forall|b: u64| #[trigger] self.store.as_map().contains_key(b) implies {
                        &&& self.store.as_map()[b].buyer_id == b
                        &&& b != self.own_id
                        &&& self.store.as_map()[b].seller_id != b
                        &&& self.store.as_map()[b].locked_amount > self.fee_reserve
                    } by {
                        assert(old(self).store.as_map().contains_key(b));
                        if b != buyer_account_id {
                            assert(self.store.as_map()[b] == old(self).store.as_map()[b]);
                        }
                    }
                }
                Ok(PurchaseResolution::Confirmed)
            },
            None => {
                match self.completed_near_transaction(
                    buyer_account_id,
                    rec.locked_amount,
                    buyer_account_id,
                    own_balance,
                ) {
                    Ok(refund) => Ok(PurchaseResolution::Refunded(refund)),
                    Err(e) => Err(e),
                }
            },
        }
    }

    /// What `approve_purchase` decides for given inputs.
    pub open spec fn approve_result(self, buyer: u64, own_balance: u128) -> Result<
        TransferAction,
        EscrowError,
    > {
        if !self.store.as_map().contains_key(buyer) {
            Err(EscrowError::NoEscrowFound)
        } else if self.store.as_map()[buyer].purchased_quantity == 0 {
            Err(EscrowError::NotActive)
        } else if self.transfer_check(
            self.store.as_map()[buyer].seller_id,
            self.settle_amount(self.store.as_map()[buyer]),
            own_balance,
        ) {
            Ok(
                (TransferAction {
                    to: self.store.as_map()[buyer].seller_id,
                    amount: self.settle_amount(self.store.as_map()[buyer]),
                }),
            )
        } else {
            Err(EscrowError::InvariantViolation)
        }
    }

    /// The buyer approves the exchange: the locked value, net of the fee
    /// reserve, is released to the seller and the record is deleted. Only an
    /// active escrow — one whose purchase leg has resolved — can be approved.
    pub fn approve_purchase(&mut self, buyer_account_id: u64, own_balance: u128) -> (r: Result<
        TransferAction,
        EscrowError,
    >)
        requires
            old(self).wf(),
        ensures
            final(self).wf(),
            old(self).same_config(*final(self)),
            r == old(self).approve_result(buyer_account_id, own_balance),
            r is Err ==> *final(self) == *old(self),
            r is Ok ==> final(self).store.as_map() == old(self).store.as_map().remove(
                buyer_account_id,
            ),
    {
        let rec = match self.store.get(buyer_account_id) {
            Some(rec) => rec,
            None => {
                return Err(EscrowError::NoEscrowFound);
            },
        };
        if rec.purchased_quantity == 0 {
            return Err(EscrowError::NotActive);
        }
        let amount = rec.locked_amount - self.fee_reserve;
        match self.completed_near_transaction(
            rec.seller_id,
            amount,
            buyer_account_id,
            own_balance,
        ) {
            Ok(action) => Ok(action),
            Err(e) => Err(e),
        }
    }

    /// What `cancel_purchase` decides for given inputs.
    pub open spec fn cancel_result(self, buyer: u64, own_balance: u128) -> Result<
        (TransferAction, AssetGiveback),
        EscrowError,
    > {
        if !self.store.as_map().contains_key(buyer) {
            Err(EscrowError::NoEscrowFound)
        } else if self.store.as_map()[buyer].locked_amount <= own_balance {
            Ok(
                (
                    (TransferAction { to: buyer, amount: self.store.as_map()[buyer].locked_amount }),
                    (AssetGiveback {
                        asset_contract_id: self.store.as_map()[buyer].asset_contract_id,
                        quantity: self.store.as_map()[buyer].purchased_quantity,
                        from_id: buyer,
                        to_id: self.store.as_map()[buyer].seller_id,
                    }),
                ),
            )
        } else {
            Err(EscrowError::InvariantViolation)
        }
    }

    /// The buyer cancels: the full locked amount is refunded to the buyer at
    /// once and the record is deleted; separately, a best-effort giveback of
    /// the purchased units to the seller is handed to the host. The refund is
    /// unconditional and immediate; the giveback is advisory and unverified.
    pub fn cancel_purchase(&mut self, buyer_account_id: u64, own_balance: u128) -> (r: Result<
        (TransferAction, AssetGiveback),
        EscrowError,
    >)
        requires
            old(self).wf(),
        ensures
            final(self).wf(),
            old(self).same_config(*final(self)),
            r == old(self).cancel_result(buyer_account_id, own_balance),
            r is Err ==> *final(self) == *old(self),
            r is Ok ==> final(self).store.as_map() == old(self).store.as_map().remove(
                buyer_account_id,
            ),
    {
        let rec = match self.store.get(buyer_account_id) {
            Some(rec) => rec,
            None => {
                return Err(EscrowError::NoEscrowFound);
            },
        };
        match self.completed_near_transaction(
            buyer_account_id,
            rec.locked_amount,
            buyer_account_id,
            own_balance,
        ) {
            Ok(refund) => {
                let giveback = self.cross_contract_transfer_asset(
                    rec.asset_contract_id,
                    rec.purchased_quantity,
                    buyer_account_id,
                    rec.seller_id,
                );
                Ok((refund, giveback))
            },
            Err(e) => Err(e),
        }
    }

    /// Build the advisory `transfer_asset` request the host sends to the
    /// asset ledger after a cancellation.
    pub fn cross_contract_transfer_asset(
        &self,
        asset_contract_id: u64,
        quantity: u128,
        from_account_id: u64,
        to_account_id: u64,
    ) -> (r: AssetGiveback)
        ensures
            r == (AssetGiveback {
                asset_contract_id,
                quantity,
                from_id: from_account_id,
                to_id: to_account_id,
            }),
    {
        AssetGiveback { asset_contract_id, quantity, from_id: from_account_id, to_id: to_account_id }
    }

    /// The giveback's continuation only reports whether the asset transfer
    /// went through; it performs no further reconciliation.
    pub fn transfer_asset_callback(&mut self, call_result_ok: bool) -> (r: bool)
        ensures
            r == call_result_ok,
            *final(self) == *old(self),
    {
        call_result_ok
    }

    /// Whether a record's timeout window has elapsed at logical time `now`.
    pub open spec fn expired(self, rec: EscrowRecord, now: u64) -> bool {
        rec.created_at + self.timeout_window < now
    }

    /// Whether every forced settlement of the expired records in `s`, taken
    /// in order, passes the transfer preconditions against a running balance
    /// that starts at `balance`.
    pub open spec fn sweep_ok(self, s: Seq<EscrowRecord>, now: u64, balance: int) -> bool
        decreases s.len(),
    {
        if s.len() == 0 {
            true
        } else if self.expired(s[0], now) {
            &&& s[0].seller_id != self.own_id
            &&& self.settle_amount(s[0]) <= balance
            &&& self.sweep_ok(s.drop_first(), now, balance - self.settle_amount(s[0]))
        } else {
            self.sweep_ok(s.drop_first(), now, balance)
        }
    }

    /// The transfers a sweep issues: one per expired record, in store order,
    /// paying the seller the locked value net of the fee reserve.
    pub open spec fn sweep_actions(self, s: Seq<EscrowRecord>, now: u64) -> Seq<TransferAction>
        decreases s.len(),
    {
        if s.len() == 0 {
            Seq::empty()
        } else {
            let rest = self.sweep_actions(s.drop_first(), now);
            if self.expired(s[0], now) {
                seq![(TransferAction { to: s[0].seller_id, amount: self.settle_amount(s[0]) })]
                    + rest
            } else {
                rest
            }
        }
    }

    /// Appending a record to a sweep's input appends its settlement, if any,
    /// to the sweep's transfers.
    proof fn lemma_sweep_actions_push(self, s: Seq<EscrowRecord>, x: EscrowRecord, now: u64)
        ensures
            self.sweep_actions(s.push(x), now) == self.sweep_actions(s, now) + (if self.expired(
                x,
                now,
            ) {
                seq![(TransferAction { to: x.seller_id, amount: self.settle_amount(x) })]
            } else {
                Seq::empty()
            }),
        decreases s.len(),
    {
        let tail = if self.expired(x, now) {
            seq![(TransferAction { to: x.seller_id, amount: self.settle_amount(x) })]
        } else {
            Seq::<TransferAction>::empty()
        };
        if s.len() == 0 {
            assert(s.push(x)[0] == x);
            assert(s.push(x).drop_first() =~= s);
            assert(self.sweep_actions(s, now) =~= Seq::<TransferAction>::empty());
            if self.expired(x, now) {
                assert(self.sweep_actions(s.push(x), now) == seq![
                    (TransferAction { to: x.seller_id, amount: self.settle_amount(x) }),
                ] + self.sweep_actions(s, now));
                assert(seq![(TransferAction { to: x.seller_id, amount: self.settle_amount(x) })]
                    + self.sweep_actions(s, now) =~= self.sweep_actions(s, now) + tail);
            } else {
                assert(self.sweep_actions(s.push(x), now) == self.sweep_actions(s, now));
                assert(self.sweep_actions(s, now) =~= self.sweep_actions(s, now) + tail);
            }
        } else {
            assert(s.push(x)[0] == s[0]);
            assert(s.push(x).drop_first() =~= s.drop_first().push(x));
            self.lemma_sweep_actions_push(s.drop_first(), x, now);
            if self.expired(s[0], now) {
                let head = seq![
                    (TransferAction { to: s[0].seller_id, amount: self.settle_amount(s[0]) }),
                ];
                assert(head + (self.sweep_actions(s.drop_first(), now) + tail) =~= (head
                    + self.sweep_actions(s.drop_first(), now)) + tail);
            }
        }
    }

    /// Force-settle every record whose timeout window has elapsed, exactly as
    /// an approval: pay each seller the locked value net of the fee reserve
    /// and delete the record. If any of those settlements would break a
    /// transfer precondition, the whole sweep aborts with no partial effects.
    pub fn escrow_timeout_scan(&mut self, now: u64, own_balance: u128) -> (r: Result<
        Vec<TransferAction>,
        EscrowError,
    >)
        requires
            old(self).wf(),
        ensures
            final(self).wf(),
            old(self).same_config(*final(self)),
            r is Err <==> !old(self).sweep_ok(old(self).store.records(), now, own_balance as int),
            r is Err ==> r == Err::<Vec<TransferAction>, EscrowError>(
                EscrowError::InvariantViolation,
            ) && *final(self) == *old(self),
            (r matches Ok(actions) ==> {
                &&& actions@ == old(self).sweep_actions(old(self).store.records(), now)
                &&& forall|b: u64|
                    #![trigger final(self).store.as_map().contains_key(b)]
                    #![trigger old(self).store.as_map().contains_key(b)]
                    final(self).store.as_map().contains_key(b) <==> (old(
                        self,
                    ).store.as_map().contains_key(b) && !old(self).expired(
                        old(self).store.as_map()[b],
                        now,
                    ))
                &&& forall|b: u64| #[trigger]
                    final(self).store.as_map().contains_key(b) ==> final(self).store.as_map()[b]
                        == old(self).store.as_map()[b]
            }),
    {
        let snapshot = self.store.all();
        let n = snapshot.len();
        proof {
            assert(snapshot@.subrange(0, n as int) =~= snapshot@);
        }
        let mut remaining: u128 = own_balance;
        let mut i: usize = 0;
        while i < n
            invariant
                *self == *old(self),
                old(self).wf(),
                snapshot@ == old(self).store.records(),
                n == snapshot@.len(),
                i <= n,
                old(self).sweep_ok(snapshot@, now, own_balance as int) == old(self).sweep_ok(
                    snapshot@.subrange(i as int, n as int),
                    now,
                    remaining as int,
                ),
            decreases n - i,
        {
            let rec = snapshot[i];
            proof {
                crate::store::lemma_record_map_index(snapshot@, i as int);
                assert(old(self).store.as_map().contains_key(rec.buyer_id));
                assert(old(self).store.as_map()[rec.buyer_id] == rec);
                assert(rec.locked_amount > self.fee_reserve);
                assert(snapshot@.subrange(i as int, n as int)[0] == snapshot@[i as int]);
                assert(snapshot@.subrange(i as int, n as int).drop_first() =~= snapshot@.subrange(
                    i + 1,
                    n as int,
                ));
            }
            if (rec.created_at as u128) + (self.timeout_window as u128) < (now as u128) {
                let settle = rec.locked_amount - self.fee_reserve;
                if rec.seller_id == self.own_id || settle > remaining {
                    return Err(EscrowError::InvariantViolation);
                }
                remaining = remaining - settle;
            }
            i = i + 1;
        }
        proof {
            assert(snapshot@.subrange(n as int, n as int).len() == 0);
        }
        let mut actions: Vec<TransferAction> = Vec::new();
        let mut k: usize = 0;
        while k < n
            invariant
                old(self).wf(),
                self.wf(),
                old(self).same_config(*self),
                snapshot@ == old(self).store.records(),
                n == snapshot@.len(),
                k <= n,
                actions@ == old(self).sweep_actions(snapshot@.subrange(0, k as int), now),
                forall|b: u64|
                    #![trigger self.store.as_map().contains_key(b)]
                    #![trigger old(self).store.as_map().contains_key(b)]
                    self.store.as_map().contains_key(b) <==> (old(
                        self,
                    ).store.as_map().contains_key(b) && !(exists|t: int|
                        0 <= t < k && (#[trigger] snapshot@[t]).buyer_id == b && old(self).expired(
                            snapshot@[t],
                            now,
                        ))),
                forall|b: u64| #[trigger]
                    self.store.as_map().contains_key(b) ==> self.store.as_map()[b] == old(
                        self,
                    ).store.as_map()[b],
            decreases n - k,
        {
            let rec = snapshot[k];
            proof {
                crate::store::lemma_record_map_index(snapshot@, k as int);
                assert(old(self).store.as_map().contains_key(rec.buyer_id));
                assert(snapshot@.subrange(0, k as int).push(snapshot@[k as int])
                    =~= snapshot@.subrange(0, k + 1));
                old(self).lemma_sweep_actions_push(snapshot@.subrange(0, k as int), rec, now);
            }
            if (rec.created_at as u128) + (self.timeout_window as u128) < (now as u128) {
                let settle = rec.locked_amount - self.fee_reserve;
                let ghost prev = *self;
                self.store.remove(rec.buyer_id);
                actions.push(TransferAction { to: rec.seller_id, amount: settle });
                proof {
                    self.lemma_wf_after_remove(prev, rec.buyer_id);
                    assert forall|b: u64|
                        self.store.as_map().contains_key(b) == (old(
                            self,
                        ).store.as_map().contains_key(b) && !(exists|t: int|
                            0 <= t < k + 1 && (#[trigger] snapshot@[t]).buyer_id == b && old(
                                self,
                            ).expired(snapshot@[t], now))) by {
                        if b == rec.buyer_id {
                            assert(snapshot@[k as int].buyer_id == b && old(self).expired(
                                snapshot@[k as int],
                                now,
                            ));
                        } else {
                            assert(self.store.as_map().contains_key(b)
                                == prev.store.as_map().contains_key(b));
                            if exists|t: int|
                                0 <= t < k + 1 && (#[trigger] snapshot@[t]).buyer_id == b && old(
                                    self,
                                ).expired(snapshot@[t], now) {
                                let t = choose|t: int|
                                    0 <= t < k + 1 && (#[trigger] snapshot@[t]).buyer_id == b
                                        && old(self).expired(snapshot@[t], now);
                                assert(t != k);
                                assert(0 <= t < k && snapshot@[t].buyer_id == b && old(
                                    self,
                                ).expired(snapshot@[t], now));
                            }
                        }
                    }
                }
            } else {
                proof {
                    assert forall|b: u64|
                        self.store.as_map().contains_key(b) == (old(
                            self,
                        ).store.as_map().contains_key(b) && !(exists|t: int|
                            0 <= t < k + 1 && (#[trigger] snapshot@[t]).buyer_id == b && old(
                                self,
                            ).expired(snapshot@[t], now))) by {
                        if exists|t: int|
                            0 <= t < k + 1 && (#[trigger] snapshot@[t]).buyer_id == b && old(
                                self,
                            ).expired(snapshot@[t], now) {
                            let t = choose|t: int|
                                0 <= t < k + 1 && (#[trigger] snapshot@[t]).buyer_id == b && old(
                                    self,
                                ).expired(snapshot@[t], now);
                            assert(t != k);
                            assert(0 <= t < k && snapshot@[t].buyer_id == b && old(self).expired(
                                snapshot@[t],
                                now,
                            ));
                        }
                    }
                }
            }
            k = k + 1;
        }
        proof {
            assert(snapshot@.subrange(0, n as int) =~= snapshot@);
            assert forall|b: u64|
                self.store.as_map().contains_key(b) == (old(self).store.as_map().contains_key(b)
                    && !old(self).expired(old(self).store.as_map()[b], now)) by {
                crate::store::lemma_record_map_contains(snapshot@, b);
                if old(self).store.as_map().contains_key(b) {
                    let t = choose|t: int| 0 <= t < snapshot@.len() && snapshot@[t].buyer_id == b;
                    crate::store::lemma_record_map_index(snapshot@, t);
                    assert(snapshot@[t] == old(self).store.as_map()[b]);
                    if exists|u: int|
                        0 <= u < n && (#[trigger] snapshot@[u]).buyer_id == b && old(self).expired(
                            snapshot@[u],
                            now,
                        ) {
                        let u = choose|u: int|
                            0 <= u < n && (#[trigger] snapshot@[u]).buyer_id == b && old(
                                self,
                            ).expired(snapshot@[u], now);
                        crate::store::lemma_record_map_index(snapshot@, u);
                        assert(snapshot@[u] == old(self).store.as_map()[b]);
                    }
                }
            }
        }
        Ok(actions)
    }

    /// What `view_pending_escrow` reports: the seller, locked amount and
    /// creation time of the account's escrow in flight, if any.
    pub open spec fn pending_view(self, account: u64) -> Option<(u64, u128, u64)> {
        if self.store.as_map().contains_key(account) {
            Some(
                (
                    self.store.as_map()[account].seller_id,
                    self.store.as_map()[account].locked_amount,
                    self.store.as_map()[account].created_at,
                ),
            )
        } else {
            None
        }
    }

    pub fn view_pending_escrow(&self, account_id: u64) -> (r: Option<(u64, u128, u64)>)
        requires
            self.wf(),
        ensures
            r == self.pending_view(account_id),
    {
        match self.store.get(account_id) {
            Some(rec) => Some((rec.seller_id, rec.locked_amount, rec.created_at)),
            None => None,
        }
    }
}

} // verus!
