//! What each operation reports when it succeeds.
//!
//! An operation hands its notification back to the caller, who publishes it.

use vstd::prelude::*;
use crate::identity::Pubkey;

verus! {

/// The arena was set up.
#[derive(Clone, Copy, Debug, PartialEq, Eq)]
pub struct ArenaInitialized {
    pub authority: Pubkey,
    pub treasury: Pubkey,
    pub protocol_fee_bps: u16,
}

/// Credit was paid into a user's balance.
#[derive(Clone, Copy, Debug, PartialEq, Eq)]
pub struct Deposited {
    pub user: Pubkey,
    pub amount: u64,
    pub new_balance: u64,
}

/// Credit was taken out of a user's balance.
#[derive(Clone, Copy, Debug, PartialEq, Eq)]
pub struct Withdrawn {
    pub user: Pubkey,
    pub amount: u64,
    pub new_balance: u64,
}

/// A market was opened.
#[derive(Clone, Debug, PartialEq, Eq)]
pub struct MarketCreated {
    pub market_id: u64,
    pub oracle_feed: Pubkey,
    pub description: String,
    pub category: String,
    pub start_value: i128,
    pub resolution_time: i64,
}

/// A stake was placed; the pools are those after the bet.
#[derive(Clone, Copy, Debug, PartialEq, Eq)]
pub struct BetPlaced {
    pub user: Pubkey,
    pub market: Pubkey,
    pub prediction: bool,
    pub amount: u64,
    pub total_up_pool: u64,
    pub total_down_pool: u64,
}

/// A market was decided.
#[derive(Clone, Copy, Debug, PartialEq, Eq)]
pub struct MarketResolved {
    pub market: Pubkey,
    pub start_value: i128,
    pub end_value: i128,
    pub outcome: bool,
    pub total_pool: u64,
}

/// A winning position was paid out.
#[derive(Clone, Copy, Debug, PartialEq, Eq)]
pub struct WinningsClaimed {
    pub user: Pubkey,
    pub market: Pubkey,
    pub payout: u64,
    pub fee: u64,
}

/// A losing position was closed.
#[derive(Clone, Copy, Debug, PartialEq, Eq)]
pub struct BetLost {
    pub user: Pubkey,
    pub market: Pubkey,
    pub amount_lost: u64,
}

/// The fee was changed.
#[derive(Clone, Copy, Debug, PartialEq, Eq)]
pub struct FeeUpdated {
    pub old_fee_bps: u16,
    pub new_fee_bps: u16,
}

/// The authority was handed on.
#[derive(Clone, Copy, Debug, PartialEq, Eq)]
pub struct AuthorityTransferred {
    pub old_authority: Pubkey,
    pub new_authority: Pubkey,
}

} // verus!
