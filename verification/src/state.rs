//! The records the arena keeps, and the mathematical view of each.
//!
//! Every record is a plain value. Its view replaces the machine integers by
//! unbounded ones and the strings by sequences of characters, so that the
//! contracts of the operations can speak of sums and products without
//! wrap-around.

use vstd::prelude::*;
use vstd::utf8::encode_utf8;
use crate::identity::Pubkey;

verus! {

/// The mint of the credit the arena is played with.
pub const SWTCH_MINT: &'static str = "SW1TCH7qEPTdLsDHRgPuMQjbQxKdH2aBStViMFnt64f";

/// The fee a new arena usually starts with, in basis points (5%).
pub const DEFAULT_PROTOCOL_FEE_BPS: u16 = 500;

/// The highest fee the arena may charge, in basis points (10%).
pub const MAX_PROTOCOL_FEE_BPS: u16 = 1000;

/// One whole, in basis points.
pub const BPS_DENOMINATOR: u64 = 10_000;

/// The smallest stake a bet may carry: one unit at six decimals.
pub const MIN_BET_AMOUNT: u64 = 1_000_000;

/// The largest stake a bet may carry: ten thousand units at six decimals.
pub const MAX_BET_AMOUNT: u64 = 10_000_000_000;

/// The longest description a market may carry, in bytes of UTF-8.
pub const MAX_DESCRIPTION_LEN: usize = 200;

/// The longest category a market may carry, in bytes of UTF-8.
pub const MAX_CATEGORY_LEN: usize = 50;

/// The number of bytes that `text` takes when encoded as UTF-8.
pub open spec fn byte_len(text: Seq<char>) -> nat {
    encode_utf8(text).len()
}

/// The arena's configuration and running totals. There is one per arena.
#[derive(Clone, Copy, Debug, PartialEq, Eq)]
pub struct ArenaState {
    /// Who may create markets, change the fee and hand the authority on.
    pub authority: Pubkey,
    /// Who receives the fees.
    pub treasury: Pubkey,
    /// The mint of the credit that is staked.
    pub swtch_mint: Pubkey,
    /// Everything ever staked, over all markets.
    pub total_volume: u64,
    /// How many markets were created; the next market's id.
    pub total_markets: u64,
    /// The fee taken from a settled pool, in basis points.
    pub protocol_fee_bps: u16,
    pub bump: u8,
}

/// What an [`ArenaState`] stands for.
pub struct ArenaStateView {
    pub authority: Pubkey,
    pub treasury: Pubkey,
    pub swtch_mint: Pubkey,
    pub total_volume: int,
    pub total_markets: int,
    pub protocol_fee_bps: int,
    pub bump: int,
}

impl View for ArenaState {
    type V = ArenaStateView;

    open spec fn view(&self) -> ArenaStateView {
        ArenaStateView {
            authority: self.authority,
            treasury: self.treasury,
            swtch_mint: self.swtch_mint,
            total_volume: self.total_volume as int,
            total_markets: self.total_markets as int,
            protocol_fee_bps: self.protocol_fee_bps as int,
            bump: self.bump as int,
        }
    }
}

impl ArenaStateView {
    /// The fee is at most ten percent.
    pub open spec fn wf(self) -> bool {
        0 <= self.protocol_fee_bps <= MAX_PROTOCOL_FEE_BPS
    }
}

/// One binary market: will the feed's value be higher at the resolution time
/// than it was when the market opened?
#[derive(Clone, Debug, PartialEq, Eq)]
pub struct Market {
    /// The market's number in order of creation.
    pub id: u64,
    /// The feed whose value decides the market.
    pub oracle_feed: Pubkey,
    pub description: String,
    pub category: String,
    /// The feed's value when the market opened.
    pub start_value: i128,
    /// From this moment on no bet is taken and the market can be resolved.
    pub resolution_time: i64,
    /// Everything staked on "up".
    pub total_up_pool: u64,
    /// Everything staked on "down".
    pub total_down_pool: u64,
    pub resolved: bool,
    /// `Some(true)` once "up" has won, `Some(false)` once "down" has.
    pub outcome: Option<bool>,
    pub bump: u8,
}

/// What a [`Market`] stands for.
pub struct MarketView {
    pub id: int,
    pub oracle_feed: Pubkey,
    pub description: Seq<char>,
    pub category: Seq<char>,
    pub start_value: int,
    pub resolution_time: int,
    pub total_up_pool: int,
    pub total_down_pool: int,
    pub resolved: bool,
    pub outcome: Option<bool>,
    pub bump: int,
}

impl View for Market {
    type V = MarketView;

    open spec fn view(&self) -> MarketView {
        MarketView {
            id: self.id as int,
            oracle_feed: self.oracle_feed,
            description: self.description@,
            category: self.category@,
            start_value: self.start_value as int,
            resolution_time: self.resolution_time as int,
            total_up_pool: self.total_up_pool as int,
            total_down_pool: self.total_down_pool as int,
            resolved: self.resolved,
            outcome: self.outcome,
            bump: self.bump as int,
        }
    }
}

impl MarketView {
    /// A market that is still open has no outcome.
    pub open spec fn wf(self) -> bool {
        !self.resolved ==> self.outcome is None
    }

    /// Everything staked on the market, both sides together.
    pub open spec fn total_pool(self) -> int {
        self.total_up_pool + self.total_down_pool
    }

    /// Everything staked on the given side.
    pub open spec fn pool_of(self, up: bool) -> int {
        if up {
            self.total_up_pool
        } else {
            self.total_down_pool
        }
    }
}

/// One user's stake in one market.
#[derive(Clone, Copy, Debug, PartialEq, Eq)]
pub struct Position {
    pub user: Pubkey,
    /// The key of the market the stake was placed on.
    pub market: Pubkey,
    /// `true` for "up", `false` for "down".
    pub prediction: bool,
    pub amount: u64,
    /// Set once the position has been settled; never cleared.
    pub claimed: bool,
    pub bump: u8,
}

/// What a [`Position`] stands for.
pub struct PositionView {
    pub user: Pubkey,
    pub market: Pubkey,
    pub prediction: bool,
    pub amount: int,
    pub claimed: bool,
    pub bump: int,
}

impl View for Position {
    type V = PositionView;

    open spec fn view(&self) -> PositionView {
        PositionView {
            user: self.user,
            market: self.market,
            prediction: self.prediction,
            amount: self.amount as int,
            claimed: self.claimed,
            bump: self.bump as int,
        }
    }
}

/// One user's custodial balance and record of play.
#[derive(Clone, Copy, Debug, PartialEq, Eq)]
pub struct UserAccount {
    pub user: Pubkey,
    /// Credit that is free to be staked or withdrawn.
    pub balance: u64,
    pub total_wagered: u64,
    pub total_won: u64,
    pub wins: u32,
    pub losses: u32,
    pub current_streak: u32,
    pub best_streak: u32,
    pub bump: u8,
}

/// What a [`UserAccount`] stands for.
pub struct UserAccountView {
    pub user: Pubkey,
    pub balance: int,
    pub total_wagered: int,
    pub total_won: int,
    pub wins: int,
    pub losses: int,
    pub current_streak: int,
    pub best_streak: int,
    pub bump: int,
}

impl View for UserAccount {
    type V = UserAccountView;

    open spec fn view(&self) -> UserAccountView {
        UserAccountView {
            user: self.user,
            balance: self.balance as int,
            total_wagered: self.total_wagered as int,
            total_won: self.total_won as int,
            wins: self.wins as int,
            losses: self.losses as int,
            current_streak: self.current_streak as int,
            best_streak: self.best_streak as int,
            bump: self.bump as int,
        }
    }
}

impl UserAccountView {
    /// The balance is never negative, and the running streak never exceeds
    /// the best one.
    pub open spec fn wf(self) -> bool {
        &&& 0 <= self.balance
        &&& 0 <= self.current_streak <= self.best_streak
    }
}

} // verus!
