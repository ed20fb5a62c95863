//! Share accounting for a custodial pooled-asset vault.
//!
//! Depositors put a fungible asset into a pool and receive shares in
//! proportion; later they redeem shares for their proportional claim, net of
//! a small fee that stays in the pool. A third party may submit a redemption
//! on an owner's behalf, on the owner's signed and nonce-sequenced
//! authorization.
//!
//! The library decides and computes; it moves no value itself. Each operation
//! validates and quotes against the ledger, advances the ledger, and hands
//! back a settlement: the movements to request from the value-transfer
//! service, in order, and the event to emit once all of them have succeeded.
//! The host carries the settlement out step by step as the library directs,
//! and persists the new state only when told to commit.

pub mod address;
pub mod controller;
pub mod error;
pub mod events;
pub mod laws;
pub mod math;
pub mod message;
pub mod principal;
pub mod replay;
pub mod settlement;
pub mod vault;
