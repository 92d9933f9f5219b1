//! Settlement: what a position is owed once its market is decided.
//!
//! A winner receives a share of the whole pool, less the protocol fee, in
//! proportion to the stake's part of the winning side. The product is formed
//! at double width and divided once, so the only rounding is the final
//! floor. A loser receives nothing: the stake left the balance when the bet
//! was placed.

use vstd::prelude::*;
use crate::error::ArenaError;
use crate::events::{BetLost, WinningsClaimed};
use crate::identity::Pubkey;
use crate::state::{
    ArenaState,
    Market,
    Position,
    PositionView,
    UserAccount,
    UserAccountView,
    BPS_DENOMINATOR,
};

verus! {

/// The protocol fee on a pool of `total_pool` at `fee_bps` basis points,
/// rounded down.
pub open spec fn fee_on(total_pool: int, fee_bps: int) -> int {
    total_pool * fee_bps / (BPS_DENOMINATOR as int)
}

/// The part of `pool_after_fee` that falls to a stake of `amount` among
/// `winning_pool` staked on the winning side, rounded down.
pub open spec fn share_of(amount: int, pool_after_fee: int, winning_pool: int) -> int {
    amount * pool_after_fee / winning_pool
}

/// What a winning stake is paid, and the fee that goes to the treasury.
#[derive(Clone, Copy, Debug, PartialEq, Eq)]
pub struct Payout {
    pub amount: u64,
    pub fee: u64,
}

/// The payout and the fee for a winning stake of `amount`, as a pair, or the
/// reason why there is none. Every intermediate value must fit the width it
/// is held in; a winning side with nothing staked on it cannot be shared out.
pub open spec fn payout_for(
    amount: int,
    total_up_pool: int,
    total_down_pool: int,
    outcome: bool,
    fee_bps: int,
) -> Result<(int, int), ArenaError> {
    let total_pool = total_up_pool + total_down_pool;
    let winning_pool = if outcome {
        total_up_pool
    } else {
        total_down_pool
    };
    let fee = fee_on(total_pool, fee_bps);
    if total_pool > u64::MAX {
        Err(ArenaError::Overflow)
    } else if total_pool * fee_bps > u64::MAX {
        Err(ArenaError::Overflow)
    } else if fee > total_pool {
        Err(ArenaError::Underflow)
    } else if winning_pool == 0 {
        Err(ArenaError::DivisionByZero)
    } else if share_of(amount, total_pool - fee, winning_pool) > u64::MAX {
        Err(ArenaError::Overflow)
    } else {
        Ok((share_of(amount, total_pool - fee, winning_pool), fee))
    }
}

/// Computes what a winning stake of `amount` is paid from the given pools
/// when the side `outcome` has won and the fee is `fee_bps` basis points.
pub fn winning_payout(
    amount: u64,
    total_up_pool: u64,
    total_down_pool: u64,
    outcome: bool,
    fee_bps: u16,
) -> (r: Result<Payout, ArenaError>)
    ensures
        match r {
            Ok(p) => payout_for(
                amount as int,
                total_up_pool as int,
                total_down_pool as int,
                outcome,
                fee_bps as int,
            ) == Ok::<(int, int), ArenaError>((p.amount as int, p.fee as int)),
            Err(e) => payout_for(
                amount as int,
                total_up_pool as int,
                total_down_pool as int,
                outcome,
                fee_bps as int,
            ) == Err::<(int, int), ArenaError>(e),
        },
{
    let total_pool: u64 = match total_up_pool.checked_add(total_down_pool) {
        Some(sum) => sum,
        None => {
            return Err(ArenaError::Overflow);
        },
    };
    let winning_pool: u64 = if outcome {
        total_up_pool
    } else {
        total_down_pool
    };
    let scaled: u64 = match total_pool.checked_mul(fee_bps as u64) {
        Some(product) => product,
        None => {
            return Err(ArenaError::Overflow);
        },
    };
    let fee: u64 = scaled / BPS_DENOMINATOR;
    let pool_after_fee: u64 = match total_pool.checked_sub(fee) {
        Some(rest) => rest,
        None => {
            return Err(ArenaError::Underflow);
        },
    };
    if winning_pool == 0 {
        return Err(ArenaError::DivisionByZero);
    }
    assert(amount * pool_after_fee <= 0xffff_ffff_ffff_ffff * 0xffff_ffff_ffff_ffff)
        by (nonlinear_arith)
        requires
            0 <= amount <= 0xffff_ffff_ffff_ffff,
            0 <= pool_after_fee <= 0xffff_ffff_ffff_ffff,
    ;
    let product: u128 = (amount as u128) * (pool_after_fee as u128);
    let share: u128 = product / (winning_pool as u128);
    if share > u64::MAX as u128 {
        return Err(ArenaError::Overflow);
    }
    Ok(Payout { amount: share as u64, fee })
}

impl PositionView {
    /// The position once it was settled: marked as claimed, and otherwise as
    /// it was.
    pub open spec fn closed(self) -> PositionView {
        PositionView { claimed: true, ..self }
    }
}

/// How a claim ended.
#[derive(Clone, Copy, Debug, PartialEq, Eq)]
pub enum ClaimReceipt {
    /// The position had won and was paid.
    Won(WinningsClaimed),
    /// The position had lost and was closed.
    Lost(BetLost),
}

impl ClaimReceipt {
    /// The amount that is due to the treasury after this claim, if any.
    pub open spec fn fee_due(self) -> Option<u64> {
        match self {
            ClaimReceipt::Won(won) => if won.fee > 0 {
                Some(won.fee)
            } else {
                None
            },
            ClaimReceipt::Lost(_) => None,
        }
    }

    /// The amount the caller has to move from the vault to the treasury:
    /// the fee of a winning claim, unless it is zero.
    pub fn treasury_transfer(&self) -> (due: Option<u64>)
        ensures
            due == self.fee_due(),
    {
        match self {
            ClaimReceipt::Won(won) => if won.fee > 0 {
                Some(won.fee)
            } else {
                None
            },
            ClaimReceipt::Lost(_) => None,
        }
    }
}

/// What a claim works on.
#[derive(Clone, Debug, PartialEq, Eq)]
pub struct ClaimWinnings {
    pub arena_state: ArenaState,
    /// The key of the account that is to receive the fee.
    pub treasury: Pubkey,
    pub market: Market,
    /// The key under which `market` is kept.
    pub market_key: Pubkey,
    pub user_account: UserAccount,
    pub position: Position,
    /// Who claims.
    pub user: Pubkey,
}

impl ClaimWinnings {
    /// Why the claim is turned away before anything is computed, if it is:
    /// the first of these that holds.
    pub open spec fn refusal(&self) -> Option<ArenaError> {
        if self.treasury != self.arena_state.treasury {
            Some(ArenaError::InvalidTreasury)
        } else if self.position.user != self.user {
            Some(ArenaError::Unauthorized)
        } else if self.position.market != self.market_key {
            Some(ArenaError::InvalidPosition)
        } else if !self.market.resolved {
            Some(ArenaError::MarketNotResolved)
        } else if self.position.claimed {
            Some(ArenaError::AlreadyClaimed)
        } else if self.market.outcome is None {
            Some(ArenaError::MarketNotResolved)
        } else {
            None
        }
    }

    /// Whether the position predicted what came out.
    pub open spec fn won(&self) -> bool {
        self.market.outcome == Some(self.position.prediction)
    }

    /// The claimant's account after the claim together with the receipt, or
    /// the reason why the claim fails.
    pub open spec fn settled(&self) -> Result<(UserAccountView, ClaimReceipt), ArenaError> {
        match self.refusal() {
            Some(e) => Err(e),
            None => if self.won() {
                match payout_for(
                    self.position.amount as int,
                    self.market.total_up_pool as int,
                    self.market.total_down_pool as int,
                    self.position.prediction,
                    self.arena_state.protocol_fee_bps as int,
                ) {
                    Err(e) => Err(e),
                    Ok((payout, fee)) => match self.user_account@.credited(payout) {
                        Err(e) => Err(e),
                        Ok(account) => Ok(
                            (
                                account,
                                ClaimReceipt::Won(
                                    WinningsClaimed {
                                        user: self.user,
                                        market: self.market_key,
                                        payout: payout as u64,
                                        fee: fee as u64,
                                    },
                                ),
                            ),
                        ),
                    },
                }
            } else {
                match self.user_account@.defeated() {
                    Err(e) => Err(e),
                    Ok(account) => Ok(
                        (
                            account,
                            ClaimReceipt::Lost(
                                BetLost {
                                    user: self.user,
                                    market: self.market_key,
                                    amount_lost: self.position.amount,
                                },
                            ),
                        ),
                    ),
                }
            },
        }
    }
}

/// Settles a position on a resolved market, once.
///
/// The claim is for the position's owner, on the market the position was
/// placed on, with the arena's treasury named as the receiver of the fee. A
/// winner's account is credited with the payout and the win; a loser's
/// account records the loss. Either way the position is marked as claimed,
/// so that a second claim is turned away. The caller moves
/// [`ClaimReceipt::treasury_transfer`] from the vault to the treasury.
///
/// A claim that fails changes nothing and orders no movement of funds.
pub fn claim_winnings(ctx: &mut ClaimWinnings) -> (r: Result<ClaimReceipt, ArenaError>)
    ensures
        final(ctx).arena_state == old(ctx).arena_state,
        final(ctx).treasury == old(ctx).treasury,
        final(ctx).market == old(ctx).market,
        final(ctx).market_key == old(ctx).market_key,
        final(ctx).user == old(ctx).user,
        old(ctx).user_account@.wf() ==> final(ctx).user_account@.wf(),
        match r {
            Ok(receipt) => {
                &&& old(ctx).settled() == Ok::<(UserAccountView, ClaimReceipt), ArenaError>(
                    (final(ctx).user_account@, receipt),
                )
                &&& final(ctx).position@ == old(ctx).position@.closed()
            },
            Err(e) => {
                &&& old(ctx).settled() == Err::<(UserAccountView, ClaimReceipt), ArenaError>(e)
                &&& *final(ctx) == *old(ctx)
            },
        },
{
    if !ctx.treasury.same(&ctx.arena_state.treasury) {
        return Err(ArenaError::InvalidTreasury);
    }
    if !ctx.position.user.same(&ctx.user) {
        return Err(ArenaError::Unauthorized);
    }
    if !ctx.position.market.same(&ctx.market_key) {
        return Err(ArenaError::InvalidPosition);
    }
    if !ctx.market.resolved {
        return Err(ArenaError::MarketNotResolved);
    }
    if ctx.position.claimed {
        return Err(ArenaError::AlreadyClaimed);
    }
    let outcome: bool = match ctx.market.outcome {
        Some(outcome) => outcome,
        None => {
            return Err(ArenaError::MarketNotResolved);
        },
    };
    let receipt = if ctx.position.prediction == outcome {
        let payout = winning_payout(
            ctx.position.amount,
            ctx.market.total_up_pool,
            ctx.market.total_down_pool,
            outcome,
            ctx.arena_state.protocol_fee_bps,
        )?;
        ctx.user_account.credit_winnings(payout.amount)?;
        ClaimReceipt::Won(
            WinningsClaimed {
                user: ctx.user,
                market: ctx.market_key,
                payout: payout.amount,
                fee: payout.fee,
            },
        )
    } else {
        ctx.user_account.record_loss()?;
        ClaimReceipt::Lost(
            BetLost { user: ctx.user, market: ctx.market_key, amount_lost: ctx.position.amount },
        )
    };
    ctx.position.claimed = true;
    Ok(receipt)
}

/// A claimed position is not settled again: a claim by its owner, on its
/// market once resolved, with the arena's treasury, is refused as already
/// made. Being refused, it changes no record and orders no movement of
/// funds.
pub proof fn lemma_claimed_position_is_refused(ctx: ClaimWinnings)
    requires
        ctx.position.claimed,
        ctx.treasury == ctx.arena_state.treasury,
        ctx.position.user == ctx.user,
        ctx.position.market == ctx.market_key,
        ctx.market.resolved,
    ensures
        ctx.settled() == Err::<(UserAccountView, ClaimReceipt), ArenaError>(
            ArenaError::AlreadyClaimed,
        ),
{
}

/// A position is settled once. After a claim that succeeded, a second claim
/// of the position as the first left it, by the same user on the same
/// market and with the arena's treasury, is refused as already made,
/// whatever has become of the user's account and of the fee in between.
pub proof fn lemma_claim_is_final(first: ClaimWinnings, second: ClaimWinnings)
    requires
        first.settled() is Ok,
        second.position@ == first.position@.closed(),
        second.market == first.market,
        second.market_key == first.market_key,
        second.user == first.user,
        second.treasury == second.arena_state.treasury,
    ensures
        second.settled() == Err::<(UserAccountView, ClaimReceipt), ArenaError>(
            ArenaError::AlreadyClaimed,
        ),
{
}

} // verus!
