//! Settlement engine for pooled-stake binary prediction markets.
//!
//! Users pay credit into a custodial balance, stake it on whether a feed's
//! value will be higher at a market's resolution time than it was when the
//! market opened, and, once the market is resolved, claim their share of the
//! pool: the winners divide everything that was staked, less the protocol
//! fee, in proportion to their stakes.
//!
//! The engine works on plain records and keeps no state of its own. Each
//! operation takes the records it concerns, checks the request, and either
//! changes the records and returns a notification, or changes nothing and
//! returns an [`error::ArenaError`]. Reading the clock and the feed, moving
//! tokens and publishing the notification are left to the caller.
//!
//! - [`ledger`]: balances, deposits and withdrawals
//! - [`lifecycle`]: opening and resolving markets
//! - [`betting`]: placing stakes
//! - [`settlement`]: payouts and claims
//! - [`config`]: the arena's set-up, fee and authority
//! - [`book`]: what holds of a market and all its positions together

pub mod betting;
pub mod book;
pub mod config;
pub mod error;
pub mod events;
pub mod identity;
pub mod ledger;
pub mod lifecycle;
pub mod settlement;
pub mod state;

pub use crate::betting::{place_bet, PlaceBet};
pub use crate::config::{
    initialize, transfer_authority, update_fee, Initialize, TransferAuthority, UpdateFee,
};
pub use crate::error::ArenaError;
pub use crate::events::{
    ArenaInitialized, AuthorityTransferred, BetLost, BetPlaced, Deposited, FeeUpdated,
    MarketCreated, MarketResolved, WinningsClaimed, Withdrawn,
};
pub use crate::identity::Pubkey;
pub use crate::ledger::{deposit, withdraw, Deposit, Withdraw};
pub use crate::lifecycle::{create_market, resolve_market, CreateMarket, ResolveMarket};
pub use crate::settlement::{claim_winnings, winning_payout, ClaimReceipt, ClaimWinnings, Payout};
pub use crate::state::{
    ArenaState, Market, Position, UserAccount, DEFAULT_PROTOCOL_FEE_BPS, MAX_BET_AMOUNT,
    MIN_BET_AMOUNT, SWTCH_MINT,
};
