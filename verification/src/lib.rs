//! An escrow coordinator for a conditional exchange between a buyer and a
//! seller: the buyer locks native value with the coordinator, the coordinator
//! asks an external asset ledger to carry out the purchase, and the eventual
//! answer settles the escrow (release to the seller, or refund to the buyer).
//!
//! The coordinator itself is a pure state machine: every operation takes the
//! facts of the host environment (caller, attached value, current time, own
//! balance) as plain arguments and returns the outward effects (value
//! transfers, asset-ledger requests) as plain values for the host to perform.

pub mod counter;
pub mod escrow;
pub mod laws;
pub mod store;
pub mod types;
