//! A staking engine for a fungible credit: time-locked deposits accrue yield
//! from a fixed duration-keyed rate table, scaled by size-based tier
//! multipliers, with an early-exit penalty that feeds a pool-level reserve.
//!
//! The companion credit-issuance (`degen_token`) and collectible-badge
//! (`degen_nft`) record managers live beside the core. All value movement and
//! clock reads happen outside this crate: callers read the clock, perform the
//! transfers that an operation requires, and hand plain values in.

pub mod degen_nft;
pub mod degen_token;
pub mod ledger;
pub mod rewards;
pub mod staking;
