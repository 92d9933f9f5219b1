//! The book of a market: the market together with every position that was
//! ever placed on it.
//!
//! The records of a market are kept apart, one per position. This module
//! looks at them together and proves what holds of the whole: the pools
//! always equal the stakes, they only grow while the market is open, they
//! stand still once it is resolved, and the winners together are never paid
//! more than the pool holds after the fee.

use vstd::prelude::*;
use vstd::arithmetic::div_mod::lemma_fundamental_div_mod;
use crate::betting::PlaceBet;
use crate::identity::Pubkey;
use crate::lifecycle::ResolveMarket;
use crate::settlement::{fee_on, share_of, ClaimWinnings};
use crate::state::{MarketView, PositionView, BPS_DENOMINATOR, MAX_BET_AMOUNT, MIN_BET_AMOUNT};

verus! {

/// A market and the positions placed on it, claimed or not, in the order in
/// which they were placed.
pub struct Book {
    pub market: MarketView,
    pub positions: Seq<PositionView>,
}

/// The sum of the stakes among `positions` that are on the given side.
pub open spec fn staked_on(positions: Seq<PositionView>, up: bool) -> int
    decreases positions.len(),
{
    if positions.len() == 0 {
        0
    } else {
        staked_on(positions.drop_last(), up) + if positions.last().prediction == up {
            positions.last().amount
        } else {
            0
        }
    }
}

/// The sum of all stakes among `positions`.
pub open spec fn staked(positions: Seq<PositionView>) -> int {
    staked_on(positions, true) + staked_on(positions, false)
}

/// The sum of what the positions on the side `winner` are paid, each its
/// share of `pool_after_fee` among `winning_pool`, rounded down.
pub open spec fn paid_out(
    positions: Seq<PositionView>,
    winner: bool,
    pool_after_fee: int,
    winning_pool: int,
) -> int
    decreases positions.len(),
{
    if positions.len() == 0 {
        0
    } else {
        let last = positions.last();
        paid_out(positions.drop_last(), winner, pool_after_fee, winning_pool) + if last.prediction
            == winner {
            share_of(last.amount, pool_after_fee, winning_pool)
        } else {
            0
        }
    }
}

/// One operation on a market that was accepted.
pub enum BookOp {
    /// A bet by `user`.
    Bet { user: Pubkey, market_key: Pubkey, prediction: bool, amount: u64, bump: u8 },
    /// The resolution, with the feed at `end_value`.
    Resolve { end_value: i128 },
    /// The claim of the position at `index`.
    Claim { index: int },
}

impl Book {
    /// The book of a market that was just opened.
    pub open spec fn opened(market: MarketView) -> Book {
        Book { market, positions: Seq::empty() }
    }

    /// Each pool equals the stakes placed on its side, no stake is negative,
    /// and an open market has no outcome.
    pub open spec fn conserved(self) -> bool {
        &&& self.market.total_up_pool == staked_on(self.positions, true)
        &&& self.market.total_down_pool == staked_on(self.positions, false)
        &&& forall|i: int| 0 <= i < self.positions.len() ==> self.positions[i].amount >= 0
        &&& self.market.wf()
    }

    /// The book after `op`. A bet is taken while the market is open, for a
    /// stake within the limits; a market is resolved once; a position is
    /// claimed once, after the resolution. Anything else leaves the book as
    /// it is.
    pub open spec fn after(self, op: BookOp) -> Book {
        match op {
            BookOp::Bet { user, market_key, prediction, amount, bump } => {
                if !self.market.resolved && MIN_BET_AMOUNT <= amount <= MAX_BET_AMOUNT {
                    Book {
                        market: self.market.staked(prediction, amount as int),
                        positions: self.positions.push(
                            PositionView::opened(
                                user,
                                market_key,
                                prediction,
                                amount as int,
                                bump as int,
                            ),
                        ),
                    }
                } else {
                    self
                }
            },
            BookOp::Resolve { end_value } => {
                if !self.market.resolved {
                    Book { market: self.market.resolved_with(end_value as int), ..self }
                } else {
                    self
                }
            },
            BookOp::Claim { index } => {
                if self.market.resolved && 0 <= index < self.positions.len()
                    && !self.positions[index].claimed {
                    Book {
                        positions: self.positions.update(index, self.positions[index].closed()),
                        ..self
                    }
                } else {
                    self
                }
            },
        }
    }

    /// The book after the operations `ops`, in turn.
    pub open spec fn after_all(self, ops: Seq<BookOp>) -> Book
        decreases ops.len(),
    {
        if ops.len() == 0 {
            self
        } else {
            self.after_all(ops.drop_last()).after(ops.last())
        }
    }
}

/// Marking a position as claimed changes no sum of stakes.
proof fn lemma_claim_keeps_stakes(positions: Seq<PositionView>, index: int, up: bool)
    requires
        0 <= index < positions.len(),
    ensures
        staked_on(positions.update(index, positions[index].closed()), up) == staked_on(
            positions,
            up,
        ),
    decreases positions.len(),
{
    let claimed = positions.update(index, positions[index].closed());
    if index == positions.len() - 1 {
        assert(claimed.drop_last() =~= positions.drop_last());
    } else {
        lemma_claim_keeps_stakes(positions.drop_last(), index, up);
        assert(claimed.drop_last() =~= positions.drop_last().update(
            index,
            positions[index].closed(),
        ));
    }
}

/// An accepted bet is a step of the book: where [`crate::betting::place_bet`]
/// succeeds, the market and the position it leaves are those of the book
/// after the bet.
pub proof fn lemma_bet_is_book_step(
    ctx: PlaceBet,
    prediction: bool,
    amount: u64,
    now: i64,
    positions: Seq<PositionView>,
)
    requires
        ctx.refusal(prediction, amount, now) is None,
    ensures
        (Book { market: ctx.market@, positions }).after(
            BookOp::Bet {
                user: ctx.user,
                market_key: ctx.market_key,
                prediction,
                amount,
                bump: ctx.position_bump,
            },
        ) == (Book {
            market: ctx.market@.staked(prediction, amount as int),
            positions: positions.push(
                PositionView::opened(
                    ctx.user,
                    ctx.market_key,
                    prediction,
                    amount as int,
                    ctx.position_bump as int,
                ),
            ),
        }),
{
}

/// An accepted resolution is a step of the book: where
/// [`crate::lifecycle::resolve_market`] succeeds, the market it leaves is
/// that of the book after the resolution.
pub proof fn lemma_resolution_is_book_step(
    ctx: ResolveMarket,
    now: i64,
    end_value: i128,
    positions: Seq<PositionView>,
)
    requires
        ctx.failure(now) is None,
    ensures
        (Book { market: ctx.market@, positions }).after(BookOp::Resolve { end_value }) == (Book {
            market: ctx.market@.resolved_with(end_value as int),
            positions,
        }),
{
}

/// An accepted claim is a step of the book: where
/// [`crate::settlement::claim_winnings`] succeeds on the position at `index`,
/// the position it leaves is that of the book after the claim.
pub proof fn lemma_claim_is_book_step(ctx: ClaimWinnings, positions: Seq<PositionView>, index: int)
    requires
        ctx.settled() is Ok,
        0 <= index < positions.len(),
        positions[index] == ctx.position@,
    ensures
        (Book { market: ctx.market@, positions }).after(BookOp::Claim { index }) == (Book {
            market: ctx.market@,
            positions: positions.update(index, ctx.position@.closed()),
        }),
{
}

/// One operation keeps the pools equal to the stakes and takes nothing out
/// of either pool. On a resolved market it leaves the market as it is.
pub proof fn lemma_step_conserves(book: Book, op: BookOp)
    requires
        book.conserved(),
    ensures
        book.after(op).conserved(),
        book.after(op).market.total_up_pool >= book.market.total_up_pool,
        book.after(op).market.total_down_pool >= book.market.total_down_pool,
        book.market.resolved ==> book.after(op).market == book.market,
{
    match op {
        BookOp::Bet { user, market_key, prediction, amount, bump } => {
            if !book.market.resolved && MIN_BET_AMOUNT <= amount <= MAX_BET_AMOUNT {
                let position = PositionView::opened(
                    user,
                    market_key,
                    prediction,
                    amount as int,
                    bump as int,
                );
                assert(book.positions.push(position).drop_last() =~= book.positions);
            }
        },
        BookOp::Resolve { end_value } => {},
        BookOp::Claim { index } => {
            if book.market.resolved && 0 <= index < book.positions.len()
                && !book.positions[index].claimed {
                lemma_claim_keeps_stakes(book.positions, index, true);
                lemma_claim_keeps_stakes(book.positions, index, false);
            }
        },
    }
}

/// Conservation. Through every sequence of bets, resolutions and claims on a
/// market, the two pools together equal the sum of all stakes ever placed on
/// it, claimed or not; no pool ever shrinks; and from the resolution on the
/// market, its pools and its outcome with it, stays as it is.
pub proof fn lemma_conservation(book: Book, ops: Seq<BookOp>)
    requires
        book.conserved(),
    ensures
        book.after_all(ops).conserved(),
        book.after_all(ops).market.total_pool() == staked(book.after_all(ops).positions),
        book.after_all(ops).market.total_up_pool >= book.market.total_up_pool,
        book.after_all(ops).market.total_down_pool >= book.market.total_down_pool,
        book.after_all(ops).market.total_pool() >= book.market.total_pool(),
        book.market.resolved ==> book.after_all(ops).market == book.market,
    decreases ops.len(),
{
    if ops.len() > 0 {
        lemma_conservation(book, ops.drop_last());
        lemma_step_conserves(book.after_all(ops.drop_last()), ops.last());
    }
}

/// The book of a market that was just opened is conserved: nothing is
/// staked and nothing is pooled.
pub proof fn lemma_opened_book_conserved(
    id: int,
    oracle_feed: Pubkey,
    description: Seq<char>,
    category: Seq<char>,
    start_value: int,
    resolution_time: int,
    bump: int,
)
    ensures
        Book::opened(
            MarketView::opened(
                id,
                oracle_feed,
                description,
                category,
                start_value,
                resolution_time,
                bump,
            ),
        ).conserved(),
{
}

/// What is paid out, times the winning pool, is at most what the winners
/// staked, times the pool after the fee.
proof fn lemma_paid_out_bound(
    positions: Seq<PositionView>,
    winner: bool,
    pool_after_fee: int,
    winning_pool: int,
)
    requires
        winning_pool > 0,
    ensures
        paid_out(positions, winner, pool_after_fee, winning_pool) * winning_pool <= staked_on(
            positions,
            winner,
        ) * pool_after_fee,
    decreases positions.len(),
{
    if positions.len() > 0 {
        let rest = positions.drop_last();
        let last = positions.last();
        lemma_paid_out_bound(rest, winner, pool_after_fee, winning_pool);
        let paid = paid_out(rest, winner, pool_after_fee, winning_pool);
        let stakes = staked_on(rest, winner);
        if last.prediction == winner {
            let product = last.amount * pool_after_fee;
            let share = share_of(last.amount, pool_after_fee, winning_pool);
            lemma_fundamental_div_mod(product, winning_pool);
            assert(share * winning_pool <= product) by (nonlinear_arith)
                requires
                    product == winning_pool * share + product % winning_pool,
                    product % winning_pool >= 0,
            ;
            assert((paid + share) * winning_pool <= (stakes + last.amount) * pool_after_fee)
                by (nonlinear_arith)
                requires
                    paid * winning_pool <= stakes * pool_after_fee,
                    share * winning_pool <= product,
                    product == last.amount * pool_after_fee,
            ;
        }
    }
}

/// No dust is handed out. On a resolved market whose pools equal the stakes,
/// what all winners together are paid, each the floor of a proportional
/// share, is at most the pool after the fee, whatever the fee up to the
/// whole pool.
pub proof fn lemma_payouts_within_pool(book: Book, winner: bool, fee_bps: int)
    requires
        book.conserved(),
        book.market.outcome == Some(winner),
        book.market.pool_of(winner) > 0,
        0 <= fee_bps <= BPS_DENOMINATOR,
    ensures
        0 <= fee_on(book.market.total_pool(), fee_bps) <= book.market.total_pool(),
        paid_out(
            book.positions,
            winner,
            book.market.total_pool() - fee_on(book.market.total_pool(), fee_bps),
            book.market.pool_of(winner),
        ) <= book.market.total_pool() - fee_on(book.market.total_pool(), fee_bps),
{
    let total = book.market.total_pool();
    let winning = book.market.pool_of(winner);
    lemma_stakes_not_negative(book.positions, true);
    lemma_stakes_not_negative(book.positions, false);
    let scaled = total * fee_bps;
    assert(0 <= scaled <= total * 10_000) by (nonlinear_arith)
        requires
            total >= 0,
            0 <= fee_bps <= 10_000,
            scaled == total * fee_bps,
    ;
    let rest = total - fee_on(total, fee_bps);
    lemma_paid_out_bound(book.positions, winner, rest, winning);
    let paid = paid_out(book.positions, winner, rest, winning);
    assert(paid <= rest) by (nonlinear_arith)
        requires
            paid * winning <= winning * rest,
            winning > 0,
    ;
}

/// A sum of stakes none of which is negative is not negative.
proof fn lemma_stakes_not_negative(positions: Seq<PositionView>, up: bool)
    requires
        forall|i: int| 0 <= i < positions.len() ==> positions[i].amount >= 0,
    ensures
        staked_on(positions, up) >= 0,
    decreases positions.len(),
{
    if positions.len() > 0 {
        lemma_stakes_not_negative(positions.drop_last(), up);
    }
}

} // verus!
