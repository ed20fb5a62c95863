use vstd::prelude::*;
use crate::principal::Principal;

verus! {

/// Emitted when a deposit has been committed.
#[derive(Clone, Copy, Debug, PartialEq, Eq)]
pub struct DepositEvent {
    pub user: Principal,
    pub assets: u64,
    pub shares: u64,
}

/// Emitted when a redemption has been committed. `assets` is what was paid
/// out, after the fee.
#[derive(Clone, Copy, Debug, PartialEq, Eq)]
pub struct RedeemEvent {
    pub user: Principal,
    pub shares: u64,
    pub assets: u64,
    pub fee: u64,
}

/// Emitted when the redemption fee has been changed.
#[derive(Clone, Copy, Debug, PartialEq, Eq)]
pub struct FeeUpdatedEvent {
    pub new_fee_bps: u16,
}

} // verus!
