//! The data the coordinator works on: the escrow record, the errors an
//! operation can surface, and the outward effects an operation asks the host
//! to perform.

use vstd::prelude::*;

verus! {

/// One escrow in flight. There is at most one per buyer; the record is keyed
/// by `buyer_id`.
#[derive(Clone, Copy, PartialEq, Eq, Structural, Debug)]
pub struct EscrowRecord {
    /// The buyer who locked the value.
    pub buyer_id: u64,
    /// The seller who is paid when the escrow settles.
    pub seller_id: u64,
    /// Native value held by the coordinator on the buyer's behalf.
    pub locked_amount: u128,
    /// The asset-ledger instance that carries out the purchase.
    pub asset_contract_id: u64,
    /// Units confirmed by the asset ledger; provisional `0` until the
    /// purchase continuation resolves.
    pub purchased_quantity: u128,
    /// Logical timestamp at record creation, read by the timeout sweep.
    pub created_at: u64,
}

/// Why an operation was rejected. Every rejection leaves the coordinator
/// unchanged.
#[derive(Clone, Copy, PartialEq, Eq, Structural, Debug)]
pub enum EscrowError {
    /// The attached value does not strictly exceed the fee reserve.
    NonPositiveAmount,
    /// The buyer already has an escrow in flight.
    DoubleEscrow,
    /// The seller and the buyer are the same principal.
    SellerIsBuyer,
    /// The buyer is the coordinator itself.
    SelfEscrow,
    /// No escrow record exists for the caller.
    NoEscrowFound,
    /// The record exists but the purchase leg has not resolved yet.
    NotActive,
    /// A value transfer would break one of the coordinator's own
    /// preconditions: a defect in earlier guarding logic, never a user error.
    InvariantViolation,
}

impl EscrowError {
    /// The message of each rejection.
    pub open spec fn message_spec(self) -> &'static str {
        match self {
            EscrowError::NonPositiveAmount => "Must attach a positive amount",
            EscrowError::DoubleEscrow => "Can't escrow purchase twice before completing one first",
            EscrowError::SellerIsBuyer => "Can't escrow to the same account",
            EscrowError::SelfEscrow => "Can't escrow from the contract itself",
            EscrowError::NoEscrowFound => "No escrow purchase found for this buyer",
            EscrowError::NotActive => "Can't approve escrow purchase before the purchase resolves",
            EscrowError::InvariantViolation => "Escrow invariant violated",
        }
    }

    pub fn message(&self) -> (m: &'static str)
        ensures
            m == self.message_spec(),
    {
        match self {
            EscrowError::NonPositiveAmount => "Must attach a positive amount",
            EscrowError::DoubleEscrow => "Can't escrow purchase twice before completing one first",
            EscrowError::SellerIsBuyer => "Can't escrow to the same account",
            EscrowError::SelfEscrow => "Can't escrow from the contract itself",
            EscrowError::NoEscrowFound => "No escrow purchase found for this buyer",
            EscrowError::NotActive => "Can't approve escrow purchase before the purchase resolves",
            EscrowError::InvariantViolation => "Escrow invariant violated",
        }
    }
}

/// An irreversible native-value movement the host must perform: debit the
/// coordinator, credit `to`.
#[derive(Clone, Copy, PartialEq, Eq, Structural, Debug)]
pub struct TransferAction {
    pub to: u64,
    pub amount: u128,
}

/// An asynchronous `purchase_asset` request the host must send to the asset
/// ledger; its eventual answer re-enters the coordinator through
/// `purchase_escrow_callback`.
#[derive(Clone, Copy, PartialEq, Eq, Structural, Debug)]
pub struct PurchaseRequest {
    pub asset_contract_id: u64,
    pub seller_id: u64,
    pub buyer_id: u64,
    pub amount: u128,
}

/// A best-effort `transfer_asset` request: give purchased units back to the
/// seller after a cancellation. Advisory only; its answer is never acted on.
#[derive(Clone, Copy, PartialEq, Eq, Structural, Debug)]
pub struct AssetGiveback {
    pub asset_contract_id: u64,
    pub quantity: u128,
    pub from_id: u64,
    pub to_id: u64,
}

/// What the purchase continuation decided.
#[derive(Clone, Copy, PartialEq, Eq, Structural, Debug)]
pub enum PurchaseResolution {
    /// The asset ledger confirmed the purchase; the escrow is now active.
    Confirmed,
    /// The purchase failed; the buyer is refunded in full by this transfer
    /// and the record is gone.
    Refunded(TransferAction),
}

} // verus!
