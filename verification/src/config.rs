//! The arena's configuration: setting it up, changing the fee, handing the
//! authority on.

use vstd::prelude::*;
use crate::error::ArenaError;
use crate::events::{ArenaInitialized, AuthorityTransferred, FeeUpdated};
use crate::identity::Pubkey;
use crate::state::{ArenaState, ArenaStateView, MAX_PROTOCOL_FEE_BPS};

verus! {

impl ArenaStateView {
    /// An arena as it is set up: no market yet, nothing staked.
    pub open spec fn initial(
        authority: Pubkey,
        treasury: Pubkey,
        swtch_mint: Pubkey,
        protocol_fee_bps: int,
        bump: int,
    ) -> ArenaStateView {
        ArenaStateView {
            authority,
            treasury,
            swtch_mint,
            total_volume: 0,
            total_markets: 0,
            protocol_fee_bps,
            bump,
        }
    }
}

/// What the set-up of the arena works on.
#[derive(Clone, Copy, Debug, PartialEq, Eq)]
pub struct Initialize {
    /// The record that is to hold the arena's state.
    pub arena_state: ArenaState,
    /// The mint of the credit that will be staked.
    pub swtch_mint: Pubkey,
    /// Who will receive the fees.
    pub treasury: Pubkey,
    /// Who sets the arena up, and administers it from then on.
    pub authority: Pubkey,
    /// The bump the state's address was derived with.
    pub arena_state_bump: u8,
}

/// Sets the arena up with a fee of `protocol_fee_bps` basis points, which is
/// at most [`MAX_PROTOCOL_FEE_BPS`].
pub fn initialize(ctx: &mut Initialize, protocol_fee_bps: u16) -> (r: Result<
    ArenaInitialized,
    ArenaError,
>)
    ensures
        final(ctx).swtch_mint == old(ctx).swtch_mint,
        final(ctx).treasury == old(ctx).treasury,
        final(ctx).authority == old(ctx).authority,
        final(ctx).arena_state_bump == old(ctx).arena_state_bump,
        match r {
            Ok(event) => {
                &&& protocol_fee_bps <= MAX_PROTOCOL_FEE_BPS
                &&& final(ctx).arena_state@.wf()
                &&& final(ctx).arena_state@ == ArenaStateView::initial(
                    old(ctx).authority,
                    old(ctx).treasury,
                    old(ctx).swtch_mint,
                    protocol_fee_bps as int,
                    old(ctx).arena_state_bump as int,
                )
                &&& event == (ArenaInitialized {
                    authority: old(ctx).authority,
                    treasury: old(ctx).treasury,
                    protocol_fee_bps,
                })
            },
            Err(e) => {
                &&& protocol_fee_bps > MAX_PROTOCOL_FEE_BPS
                &&& e == ArenaError::InvalidFeePercentage
                &&& *final(ctx) == *old(ctx)
            },
        },
{
    if protocol_fee_bps > MAX_PROTOCOL_FEE_BPS {
        return Err(ArenaError::InvalidFeePercentage);
    }
    ctx.arena_state = ArenaState {
        authority: ctx.authority,
        treasury: ctx.treasury,
        swtch_mint: ctx.swtch_mint,
        total_volume: 0,
        total_markets: 0,
        protocol_fee_bps,
        bump: ctx.arena_state_bump,
    };
    Ok(ArenaInitialized { authority: ctx.authority, treasury: ctx.treasury, protocol_fee_bps })
}

/// What a change of the fee works on.
#[derive(Clone, Copy, Debug, PartialEq, Eq)]
pub struct UpdateFee {
    pub arena_state: ArenaState,
    /// Who asks for the change.
    pub authority: Pubkey,
}

impl UpdateFee {
    /// Why the fee is not changed to `new_fee_bps`, if it is not: the first
    /// of these that holds.
    pub open spec fn refusal(&self, new_fee_bps: u16) -> Option<ArenaError> {
        if self.arena_state.authority != self.authority {
            Some(ArenaError::Unauthorized)
        } else if new_fee_bps > MAX_PROTOCOL_FEE_BPS {
            Some(ArenaError::InvalidFeePercentage)
        } else {
            None
        }
    }
}

/// Replaces the fee by `new_fee_bps` basis points, at most
/// [`MAX_PROTOCOL_FEE_BPS`]. Only the arena's authority may do so. The new
/// fee holds for every claim made from now on.
pub fn update_fee(ctx: &mut UpdateFee, new_fee_bps: u16) -> (r: Result<FeeUpdated, ArenaError>)
    ensures
        final(ctx).authority == old(ctx).authority,
        match r {
            Ok(event) => {
                &&& old(ctx).refusal(new_fee_bps) is None
                &&& final(ctx).arena_state@.wf()
                &&& final(ctx).arena_state == (ArenaState {
                    protocol_fee_bps: new_fee_bps,
                    ..old(ctx).arena_state
                })
                &&& event == (FeeUpdated {
                    old_fee_bps: old(ctx).arena_state.protocol_fee_bps,
                    new_fee_bps,
                })
            },
            Err(e) => {
                &&& old(ctx).refusal(new_fee_bps) == Some(e)
                &&& *final(ctx) == *old(ctx)
            },
        },
{
    if !ctx.arena_state.authority.same(&ctx.authority) {
        return Err(ArenaError::Unauthorized);
    }
    if new_fee_bps > MAX_PROTOCOL_FEE_BPS {
        return Err(ArenaError::InvalidFeePercentage);
    }
    let old_fee_bps: u16 = ctx.arena_state.protocol_fee_bps;
    ctx.arena_state.protocol_fee_bps = new_fee_bps;
    Ok(FeeUpdated { old_fee_bps, new_fee_bps })
}

/// What a transfer of the authority works on.
#[derive(Clone, Copy, Debug, PartialEq, Eq)]
pub struct TransferAuthority {
    pub arena_state: ArenaState,
    /// Who asks for the transfer.
    pub authority: Pubkey,
}

/// Makes `new_authority` the arena's authority, at once and whoever it is.
/// Only the present authority may do so.
pub fn transfer_authority(ctx: &mut TransferAuthority, new_authority: Pubkey) -> (r: Result<
    AuthorityTransferred,
    ArenaError,
>)
    ensures
        final(ctx).authority == old(ctx).authority,
        old(ctx).arena_state@.wf() ==> final(ctx).arena_state@.wf(),
        match r {
            Ok(event) => {
                &&& old(ctx).arena_state.authority == old(ctx).authority
                &&& final(ctx).arena_state == (ArenaState {
                    authority: new_authority,
                    ..old(ctx).arena_state
                })
                &&& event == (AuthorityTransferred {
                    old_authority: old(ctx).arena_state.authority,
                    new_authority,
                })
            },
            Err(e) => {
                &&& old(ctx).arena_state.authority != old(ctx).authority
                &&& e == ArenaError::Unauthorized
                &&& *final(ctx) == *old(ctx)
            },
        },
{
    if !ctx.arena_state.authority.same(&ctx.authority) {
        return Err(ArenaError::Unauthorized);
    }
    let old_authority = ctx.arena_state.authority;
    ctx.arena_state.authority = new_authority;
    Ok(AuthorityTransferred { old_authority, new_authority })
}

} // verus!
