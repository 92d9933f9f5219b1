//! The life of a market: it is opened with a snapshot of its feed, takes
//! bets until its resolution time, and is then resolved, once and for good,
//! by a second snapshot.

use vstd::prelude::*;
use crate::error::ArenaError;
use crate::events::{MarketCreated, MarketResolved};
use crate::identity::Pubkey;
use crate::state::{
    byte_len,
    ArenaState,
    ArenaStateView,
    Market,
    MarketView,
    MAX_CATEGORY_LEN,
    MAX_DESCRIPTION_LEN,
};

verus! {

impl MarketView {
    /// A market as it is opened: nothing staked, nothing decided.
    pub open spec fn opened(
        id: int,
        oracle_feed: Pubkey,
        description: Seq<char>,
        category: Seq<char>,
        start_value: int,
        resolution_time: int,
        bump: int,
    ) -> MarketView {
        MarketView {
            id,
            oracle_feed,
            description,
            category,
            start_value,
            resolution_time,
            total_up_pool: 0,
            total_down_pool: 0,
            resolved: false,
            outcome: None,
            bump,
        }
    }

    /// The market after it was resolved with the feed at `end_value`: "up"
    /// has won if the value is strictly higher than at the start, and "down"
    /// otherwise, an unchanged value included.
    pub open spec fn resolved_with(self, end_value: int) -> MarketView {
        MarketView { resolved: true, outcome: Some(end_value > self.start_value), ..self }
    }
}

impl ArenaStateView {
    /// The arena after one more market was opened.
    pub open spec fn with_market(self) -> ArenaStateView {
        ArenaStateView { total_markets: self.total_markets + 1, ..self }
    }
}

/// What the creation of a market works on.
#[derive(Clone, Debug, PartialEq, Eq)]
pub struct CreateMarket {
    pub arena_state: ArenaState,
    /// The record that is to hold the new market.
    pub market: Market,
    /// The key of the feed that is read for the market.
    pub oracle_feed: Pubkey,
    /// Who asks for the market.
    pub authority: Pubkey,
    /// The bump the market's address was derived with.
    pub market_bump: u8,
}

impl CreateMarket {
    /// Why the request is turned away before the feed is read, if it is: the
    /// first of these that holds.
    pub open spec fn refusal(
        &self,
        oracle_feed: Pubkey,
        description: Seq<char>,
        category: Seq<char>,
        resolution_time: i64,
        now: i64,
    ) -> Option<ArenaError> {
        if self.arena_state.authority != self.authority {
            Some(ArenaError::Unauthorized)
        } else if self.oracle_feed != oracle_feed {
            Some(ArenaError::InvalidOracle)
        } else if byte_len(description) > MAX_DESCRIPTION_LEN {
            Some(ArenaError::DescriptionTooLong)
        } else if byte_len(category) > MAX_CATEGORY_LEN {
            Some(ArenaError::CategoryTooLong)
        } else if resolution_time <= now {
            Some(ArenaError::InvalidResolutionTime)
        } else {
            None
        }
    }

    /// Why the market is not opened, if it is not: the request is turned
    /// away, or the arena has run out of market numbers.
    pub open spec fn failure(
        &self,
        oracle_feed: Pubkey,
        description: Seq<char>,
        category: Seq<char>,
        resolution_time: i64,
        now: i64,
    ) -> Option<ArenaError> {
        match self.refusal(oracle_feed, description, category, resolution_time, now) {
            Some(e) => Some(e),
            None => if self.arena_state.total_markets + 1 > u64::MAX {
                Some(ArenaError::Overflow)
            } else {
                None
            },
        }
    }

    /// Judges the request before the feed is read: who asks, for which feed,
    /// in what words, for what time.
    pub fn admits(
        &self,
        oracle_feed: &Pubkey,
        description: &str,
        category: &str,
        resolution_time: i64,
        now: i64,
    ) -> (r: Result<(), ArenaError>)
        ensures
            r == match self.refusal(*oracle_feed, description@, category@, resolution_time, now) {
                Some(e) => Err::<(), ArenaError>(e),
                None => Ok::<(), ArenaError>(()),
            },
    {
        if !self.arena_state.authority.same(&self.authority) {
            return Err(ArenaError::Unauthorized);
        }
        if !self.oracle_feed.same(oracle_feed) {
            return Err(ArenaError::InvalidOracle);
        }
        if description.as_bytes().len() > MAX_DESCRIPTION_LEN {
            return Err(ArenaError::DescriptionTooLong);
        }
        if category.as_bytes().len() > MAX_CATEGORY_LEN {
            return Err(ArenaError::CategoryTooLong);
        }
        if resolution_time <= now {
            return Err(ArenaError::InvalidResolutionTime);
        }
        Ok(())
    }
}

/// Opens a market on the feed `oracle_feed`, to be resolved at
/// `resolution_time`.
///
/// Only the arena's authority may do so. `now` is the present time and
/// `start_value` the feed's value as just read. The description takes at
/// most [`MAX_DESCRIPTION_LEN`] bytes, the category at most
/// [`MAX_CATEGORY_LEN`], and the resolution time lies strictly after `now`.
/// The market gets the next id in sequence. A creation that fails changes
/// nothing.
pub fn create_market(
    ctx: &mut CreateMarket,
    oracle_feed: Pubkey,
    description: String,
    category: String,
    resolution_time: i64,
    now: i64,
    start_value: i128,
) -> (r: Result<MarketCreated, ArenaError>)
    ensures
        final(ctx).oracle_feed == old(ctx).oracle_feed,
        final(ctx).authority == old(ctx).authority,
        final(ctx).market_bump == old(ctx).market_bump,
        old(ctx).arena_state@.wf() ==> final(ctx).arena_state@.wf(),
        match r {
            Ok(event) => {
                &&& old(ctx).failure(oracle_feed, description@, category@, resolution_time, now)
                    is None
                &&& final(ctx).market@ == MarketView::opened(
                    old(ctx).arena_state.total_markets as int,
                    oracle_feed,
                    description@,
                    category@,
                    start_value as int,
                    resolution_time as int,
                    old(ctx).market_bump as int,
                )
                &&& final(ctx).market@.wf()
                &&& final(ctx).arena_state@ == old(ctx).arena_state@.with_market()
                &&& event.market_id == old(ctx).arena_state.total_markets
                &&& event.oracle_feed == oracle_feed
                &&& event.description@ == description@
                &&& event.category@ == category@
                &&& event.start_value == start_value
                &&& event.resolution_time == resolution_time
            },
            Err(e) => {
                &&& old(ctx).failure(oracle_feed, description@, category@, resolution_time, now)
                    == Some(e)
                &&& *final(ctx) == *old(ctx)
            },
        },
{
    ctx.admits(&oracle_feed, description.as_str(), category.as_str(), resolution_time, now)?;
    let market_id: u64 = ctx.arena_state.total_markets;
    let total_markets: u64 = match market_id.checked_add(1) {
        Some(next) => next,
        None => {
            return Err(ArenaError::Overflow);
        },
    };
    ctx.arena_state.total_markets = total_markets;
    ctx.market = Market {
        id: market_id,
        oracle_feed,
        description: description.clone(),
        category: category.clone(),
        start_value,
        resolution_time,
        total_up_pool: 0,
        total_down_pool: 0,
        resolved: false,
        outcome: None,
        bump: ctx.market_bump,
    };
    Ok(MarketCreated { market_id, oracle_feed, description, category, start_value, resolution_time })
}

/// What the resolution of a market works on.
#[derive(Clone, Debug, PartialEq, Eq)]
pub struct ResolveMarket {
    pub market: Market,
    /// The key under which `market` is kept.
    pub market_key: Pubkey,
    /// The key of the feed that is read for the resolution.
    pub oracle_feed: Pubkey,
}

impl ResolveMarket {
    /// Why the request is turned away at the time `now`, before the feed is
    /// read, if it is: the first of these that holds.
    pub open spec fn refusal(&self, now: i64) -> Option<ArenaError> {
        if self.oracle_feed != self.market.oracle_feed {
            Some(ArenaError::InvalidOracle)
        } else if self.market.resolved {
            Some(ArenaError::MarketAlreadyResolved)
        } else if now < self.market.resolution_time {
            Some(ArenaError::ResolutionTimeNotReached)
        } else {
            None
        }
    }

    /// Why the market is not resolved, if it is not: the request is turned
    /// away, or the two pools together are more than can be reported.
    pub open spec fn failure(&self, now: i64) -> Option<ArenaError> {
        match self.refusal(now) {
            Some(e) => Some(e),
            None => if self.market@.total_pool() > u64::MAX {
                Some(ArenaError::Overflow)
            } else {
                None
            },
        }
    }

    /// Judges the request before the feed is read: by which feed, on what
    /// market, at what time.
    pub fn admits(&self, now: i64) -> (r: Result<(), ArenaError>)
        ensures
            r == match self.refusal(now) {
                Some(e) => Err::<(), ArenaError>(e),
                None => Ok::<(), ArenaError>(()),
            },
    {
        if !self.oracle_feed.same(&self.market.oracle_feed) {
            return Err(ArenaError::InvalidOracle);
        }
        if self.market.resolved {
            return Err(ArenaError::MarketAlreadyResolved);
        }
        if now < self.market.resolution_time {
            return Err(ArenaError::ResolutionTimeNotReached);
        }
        Ok(())
    }
}

/// Resolves the market with the value `end_value` that its feed shows at the
/// time `now`.
///
/// Anyone may resolve a market, from its resolution time on, once. "Up" wins
/// if the value is strictly higher than when the market opened; otherwise,
/// and so on a tie, "down" wins. The pools stay as they are. A resolution
/// that fails changes nothing.
pub fn resolve_market(ctx: &mut ResolveMarket, now: i64, end_value: i128) -> (r: Result<
    MarketResolved,
    ArenaError,
>)
    ensures
        final(ctx).market_key == old(ctx).market_key,
        final(ctx).oracle_feed == old(ctx).oracle_feed,
        match r {
            Ok(event) => {
                &&& old(ctx).failure(now) is None
                &&& final(ctx).market@ == old(ctx).market@.resolved_with(end_value as int)
                &&& final(ctx).market@.wf()
                &&& event == (MarketResolved {
                    market: old(ctx).market_key,
                    start_value: old(ctx).market.start_value,
                    end_value,
                    outcome: end_value > old(ctx).market.start_value,
                    total_pool: (old(ctx).market.total_up_pool
                        + old(ctx).market.total_down_pool) as u64,
                })
            },
            Err(e) => {
                &&& old(ctx).failure(now) == Some(e)
                &&& *final(ctx) == *old(ctx)
            },
        },
{
    ctx.admits(now)?;
    let total_pool: u64 = match ctx.market.total_up_pool.checked_add(ctx.market.total_down_pool) {
        Some(sum) => sum,
        None => {
            return Err(ArenaError::Overflow);
        },
    };
    let outcome: bool = end_value > ctx.market.start_value;
    ctx.market.resolved = true;
    ctx.market.outcome = Some(outcome);
    Ok(
        MarketResolved {
            market: ctx.market_key,
            start_value: ctx.market.start_value,
            end_value,
            outcome,
            total_pool,
        },
    )
}

/// A tie goes to "down": a market resolved with the very value it started
/// from has the outcome `Some(false)`, never none.
pub proof fn lemma_tie_resolves_down(market: MarketView)
    ensures
        market.resolved_with(market.start_value).resolved,
        market.resolved_with(market.start_value).outcome == Some(false),
{
}

/// A resolved market is not resolved again: asked by way of its own feed,
/// at whatever time, the resolution is refused as already done.
pub proof fn lemma_resolved_market_is_refused(ctx: ResolveMarket, now: i64)
    requires
        ctx.market.resolved,
        ctx.oracle_feed == ctx.market.oracle_feed,
    ensures
        ctx.refusal(now) == Some(ArenaError::MarketAlreadyResolved),
        ctx.failure(now) == Some(ArenaError::MarketAlreadyResolved),
{
}

/// Resolution is final. Once a market was resolved, at `now` with
/// `end_value`, every later attempt on what the first left, at whatever time
/// `later`, is refused as already done, and the outcome is still the one the
/// first resolution gave.
pub proof fn lemma_resolution_is_final(
    first: ResolveMarket,
    now: i64,
    end_value: i128,
    second: ResolveMarket,
    later: i64,
)
    requires
        first.failure(now) is None,
        second.market@ == first.market@.resolved_with(end_value as int),
        second.oracle_feed == first.oracle_feed,
    ensures
        second.failure(later) == Some(ArenaError::MarketAlreadyResolved),
        second.market.outcome == Some(end_value > first.market.start_value),
{
}

} // verus!
