//! Betting: staking credit on one side of an open market.

use vstd::prelude::*;
use crate::error::ArenaError;
use crate::events::BetPlaced;
use crate::identity::Pubkey;
use crate::state::{
    ArenaState,
    ArenaStateView,
    Market,
    MarketView,
    Position,
    PositionView,
    UserAccount,
    UserAccountView,
    MAX_BET_AMOUNT,
    MIN_BET_AMOUNT,
};

verus! {

impl MarketView {
    /// The market after `amount` more was staked on the given side.
    pub open spec fn staked(self, up: bool, amount: int) -> MarketView {
        if up {
            MarketView { total_up_pool: self.total_up_pool + amount, ..self }
        } else {
            MarketView { total_down_pool: self.total_down_pool + amount, ..self }
        }
    }
}

impl ArenaStateView {
    /// The arena after `amount` more was staked on one of its markets.
    pub open spec fn with_stake(self, amount: int) -> ArenaStateView {
        ArenaStateView { total_volume: self.total_volume + amount, ..self }
    }
}

impl PositionView {
    /// The position that a bet opens.
    pub open spec fn opened(
        user: Pubkey,
        market: Pubkey,
        prediction: bool,
        amount: int,
        bump: int,
    ) -> PositionView {
        PositionView { user, market, prediction, amount, claimed: false, bump }
    }
}

/// What a bet works on.
#[derive(Clone, Debug, PartialEq, Eq)]
pub struct PlaceBet {
    pub arena_state: ArenaState,
    pub market: Market,
    /// The key under which `market` is kept.
    pub market_key: Pubkey,
    /// The bettor's account.
    pub user_account: UserAccount,
    /// The record that is to hold the new position. A user has one position
    /// per market: whoever keeps the records refuses a second one.
    pub position: Position,
    /// Who bets.
    pub user: Pubkey,
    /// The bump the position's address was derived with.
    pub position_bump: u8,
}

impl PlaceBet {
    /// Why a bet of `amount` at the time `now` is turned away, if it is: the
    /// first of these that holds.
    pub open spec fn refusal(&self, prediction: bool, amount: u64, now: i64) -> Option<
        ArenaError,
    > {
        if amount < MIN_BET_AMOUNT {
            Some(ArenaError::BetTooSmall)
        } else if amount > MAX_BET_AMOUNT {
            Some(ArenaError::BetTooLarge)
        } else if self.market.resolved {
            Some(ArenaError::MarketAlreadyResolved)
        } else if now >= self.market.resolution_time {
            Some(ArenaError::BettingClosed)
        } else if self.user_account.balance < amount {
            Some(ArenaError::InsufficientBalance)
        } else if self.user_account.total_wagered + amount > u64::MAX {
            Some(ArenaError::Overflow)
        } else if self.market@.pool_of(prediction) + amount > u64::MAX {
            Some(ArenaError::Overflow)
        } else if self.arena_state.total_volume + amount > u64::MAX {
            Some(ArenaError::Overflow)
        } else {
            None
        }
    }
}

/// Stakes `amount` of the bettor's balance on the market going up
/// (`prediction` true) or down (false), at the time `now`.
///
/// The stake is between [`MIN_BET_AMOUNT`] and [`MAX_BET_AMOUNT`], the market
/// is not resolved, and `now` is before its resolution time. The amount
/// leaves the balance, joins the pool of the chosen side and the arena's
/// volume, and the position is written. A bet that fails changes nothing.
pub fn place_bet(ctx: &mut PlaceBet, prediction: bool, amount: u64, now: i64) -> (r: Result<
    BetPlaced,
    ArenaError,
>)
    ensures
        final(ctx).market_key == old(ctx).market_key,
        final(ctx).user == old(ctx).user,
        final(ctx).position_bump == old(ctx).position_bump,
        old(ctx).arena_state@.wf() ==> final(ctx).arena_state@.wf(),
        old(ctx).market@.wf() ==> final(ctx).market@.wf(),
        old(ctx).user_account@.wf() ==> final(ctx).user_account@.wf(),
        match r {
            Ok(event) => {
                &&& old(ctx).refusal(prediction, amount, now) is None
                &&& old(ctx).user_account@.locked(amount as int) == Ok::<
                    UserAccountView,
                    ArenaError,
                >(final(ctx).user_account@)
                &&& final(ctx).market@ == old(ctx).market@.staked(prediction, amount as int)
                &&& final(ctx).arena_state@ == old(ctx).arena_state@.with_stake(amount as int)
                &&& final(ctx).position@ == PositionView::opened(
                    old(ctx).user,
                    old(ctx).market_key,
                    prediction,
                    amount as int,
                    old(ctx).position_bump as int,
                )
                &&& event == (BetPlaced {
                    user: old(ctx).user,
                    market: old(ctx).market_key,
                    prediction,
                    amount,
                    total_up_pool: final(ctx).market.total_up_pool,
                    total_down_pool: final(ctx).market.total_down_pool,
                })
            },
            Err(e) => {
                &&& old(ctx).refusal(prediction, amount, now) == Some(e)
                &&& *final(ctx) == *old(ctx)
            },
        },
{
    if amount < MIN_BET_AMOUNT {
        return Err(ArenaError::BetTooSmall);
    }
    if amount > MAX_BET_AMOUNT {
        return Err(ArenaError::BetTooLarge);
    }
    if ctx.market.resolved {
        return Err(ArenaError::MarketAlreadyResolved);
    }
    if now >= ctx.market.resolution_time {
        return Err(ArenaError::BettingClosed);
    }
    let mut account = ctx.user_account;
    account.lock_for_bet(amount)?;
    let pool: u64 = if prediction {
        ctx.market.total_up_pool
    } else {
        ctx.market.total_down_pool
    };
    let pool: u64 = match pool.checked_add(amount) {
        Some(sum) => sum,
        None => {
            return Err(ArenaError::Overflow);
        },
    };
    let total_volume: u64 = match ctx.arena_state.total_volume.checked_add(amount) {
        Some(sum) => sum,
        None => {
            return Err(ArenaError::Overflow);
        },
    };
    ctx.user_account = account;
    if prediction {
        ctx.market.total_up_pool = pool;
    } else {
        ctx.market.total_down_pool = pool;
    }
    ctx.arena_state.total_volume = total_volume;
    ctx.position = Position {
        user: ctx.user,
        market: ctx.market_key,
        prediction,
        amount,
        claimed: false,
        bump: ctx.position_bump,
    };
    Ok(
        BetPlaced {
            user: ctx.user,
            market: ctx.market_key,
            prediction,
            amount,
            total_up_pool: ctx.market.total_up_pool,
            total_down_pool: ctx.market.total_down_pool,
        },
    )
}

} // verus!
