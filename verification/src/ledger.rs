//! The ledger: each user's custodial balance and record of play.
//!
//! Every debit and credit is checked. None wraps, none saturates, and one
//! that cannot be applied in full leaves the account untouched.

use vstd::prelude::*;
use crate::error::ArenaError;
use crate::events::{Deposited, Withdrawn};
use crate::identity::Pubkey;
use crate::state::{UserAccount, UserAccountView};

verus! {

impl UserAccountView {
    /// The account after `amount` was paid in on behalf of `user`.
    pub open spec fn deposited(self, user: Pubkey, bump: int, amount: int) -> Result<
        UserAccountView,
        ArenaError,
    > {
        if amount <= 0 {
            Err(ArenaError::InvalidAmount)
        } else if self.balance + amount > u64::MAX {
            Err(ArenaError::Overflow)
        } else {
            Ok(UserAccountView { user, balance: self.balance + amount, bump, ..self })
        }
    }

    /// The account after `amount` was taken out.
    pub open spec fn withdrawn(self, amount: int) -> Result<UserAccountView, ArenaError> {
        if amount <= 0 {
            Err(ArenaError::InvalidAmount)
        } else if self.balance < amount {
            Err(ArenaError::InsufficientBalance)
        } else {
            Ok(UserAccountView { balance: self.balance - amount, ..self })
        }
    }

    /// The account after `amount` was moved out of the balance into a stake.
    pub open spec fn locked(self, amount: int) -> Result<UserAccountView, ArenaError> {
        if self.balance < amount {
            Err(ArenaError::InsufficientBalance)
        } else if self.total_wagered + amount > u64::MAX {
            Err(ArenaError::Overflow)
        } else {
            Ok(
                UserAccountView {
                    balance: self.balance - amount,
                    total_wagered: self.total_wagered + amount,
                    ..self
                },
            )
        }
    }

    /// The account after a win that pays `payout`: the payout is added to the
    /// balance and to the winnings, the win is counted, and the streak grows
    /// by one, raising the best streak where it passes it.
    pub open spec fn credited(self, payout: int) -> Result<UserAccountView, ArenaError> {
        if self.balance + payout > u64::MAX || self.total_won + payout > u64::MAX || self.wins + 1
            > u32::MAX || self.current_streak + 1 > u32::MAX {
            Err(ArenaError::Overflow)
        } else {
            Ok(
                UserAccountView {
                    balance: self.balance + payout,
                    total_won: self.total_won + payout,
                    wins: self.wins + 1,
                    current_streak: self.current_streak + 1,
                    best_streak: if self.current_streak + 1 > self.best_streak {
                        self.current_streak + 1
                    } else {
                        self.best_streak
                    },
                    ..self
                },
            )
        }
    }

    /// The account after a loss: the loss is counted and the streak ends.
    pub open spec fn defeated(self) -> Result<UserAccountView, ArenaError> {
        if self.losses + 1 > u32::MAX {
            Err(ArenaError::Overflow)
        } else {
            Ok(UserAccountView { losses: self.losses + 1, current_streak: 0, ..self })
        }
    }
}

impl UserAccount {
    /// Moves `amount` out of the balance into a stake and adds it to the
    /// total wagered.
    pub fn lock_for_bet(&mut self, amount: u64) -> (r: Result<(), ArenaError>)
        ensures
            old(self)@.wf() ==> final(self)@.wf(),
            match r {
                Ok(_) => old(self)@.locked(amount as int) == Ok::<UserAccountView, ArenaError>(
                    final(self)@,
                ),
                Err(e) => old(self)@.locked(amount as int) == Err::<UserAccountView, ArenaError>(e)
                    && *final(self) == *old(self),
            },
    {
        if self.balance < amount {
            return Err(ArenaError::InsufficientBalance);
        }
        let balance: u64 = self.balance - amount;
        let total_wagered: u64 = match self.total_wagered.checked_add(amount) {
            Some(sum) => sum,
            None => {
                return Err(ArenaError::Overflow);
            },
        };
        self.balance = balance;
        self.total_wagered = total_wagered;
        Ok(())
    }

    /// Pays `payout` into the balance and records the win.
    pub fn credit_winnings(&mut self, payout: u64) -> (r: Result<(), ArenaError>)
        ensures
            old(self)@.wf() ==> final(self)@.wf(),
            match r {
                Ok(_) => old(self)@.credited(payout as int) == Ok::<UserAccountView, ArenaError>(
                    final(self)@,
                ),
                Err(e) => old(self)@.credited(payout as int) == Err::<UserAccountView, ArenaError>(
                    e,
                ) && *final(self) == *old(self),
            },
    {
        let balance: u64 = match self.balance.checked_add(payout) {
            Some(sum) => sum,
            None => {
                return Err(ArenaError::Overflow);
            },
        };
        let total_won: u64 = match self.total_won.checked_add(payout) {
            Some(sum) => sum,
            None => {
                return Err(ArenaError::Overflow);
            },
        };
        let wins: u32 = match self.wins.checked_add(1) {
            Some(sum) => sum,
            None => {
                return Err(ArenaError::Overflow);
            },
        };
        let current_streak: u32 = match self.current_streak.checked_add(1) {
            Some(sum) => sum,
            None => {
                return Err(ArenaError::Overflow);
            },
        };
        self.balance = balance;
        self.total_won = total_won;
        self.wins = wins;
        self.current_streak = current_streak;
        if current_streak > self.best_streak {
            self.best_streak = current_streak;
        }
        Ok(())
    }

    /// Records a loss and ends the streak. No credit moves: the stake left
    /// the balance when the bet was placed.
    pub fn record_loss(&mut self) -> (r: Result<(), ArenaError>)
        ensures
            old(self)@.wf() ==> final(self)@.wf(),
            match r {
                Ok(_) => old(self)@.defeated() == Ok::<UserAccountView, ArenaError>(final(self)@),
                Err(e) => old(self)@.defeated() == Err::<UserAccountView, ArenaError>(e)
                    && *final(self) == *old(self),
            },
    {
        let losses: u32 = match self.losses.checked_add(1) {
            Some(sum) => sum,
            None => {
                return Err(ArenaError::Overflow);
            },
        };
        self.losses = losses;
        self.current_streak = 0;
        Ok(())
    }
}

/// What a deposit works on.
#[derive(Clone, Copy, Debug, PartialEq, Eq)]
pub struct Deposit {
    /// The depositor's account; a first deposit finds it all zero.
    pub user_account: UserAccount,
    /// Who deposits.
    pub user: Pubkey,
    /// The bump the account's address was derived with.
    pub user_account_bump: u8,
}

/// Pays `amount` into the depositor's balance and marks the account as the
/// depositor's.
///
/// The caller moves the same amount from the depositor's wallet into the
/// vault, and lets the whole deposit fail if that movement fails.
pub fn deposit(ctx: &mut Deposit, amount: u64) -> (r: Result<Deposited, ArenaError>)
    ensures
        final(ctx).user == old(ctx).user,
        final(ctx).user_account_bump == old(ctx).user_account_bump,
        old(ctx).user_account@.wf() ==> final(ctx).user_account@.wf(),
        match r {
            Ok(event) => {
                &&& old(ctx).user_account@.deposited(
                    old(ctx).user,
                    old(ctx).user_account_bump as int,
                    amount as int,
                ) == Ok::<UserAccountView, ArenaError>(final(ctx).user_account@)
                &&& event == (Deposited {
                    user: old(ctx).user,
                    amount,
                    new_balance: final(ctx).user_account.balance,
                })
            },
            Err(e) => {
                &&& old(ctx).user_account@.deposited(
                    old(ctx).user,
                    old(ctx).user_account_bump as int,
                    amount as int,
                ) == Err::<UserAccountView, ArenaError>(e)
                &&& *final(ctx) == *old(ctx)
            },
        },
{
    if amount == 0 {
        return Err(ArenaError::InvalidAmount);
    }
    let new_balance: u64 = match ctx.user_account.balance.checked_add(amount) {
        Some(sum) => sum,
        None => {
            return Err(ArenaError::Overflow);
        },
    };
    ctx.user_account.user = ctx.user;
    ctx.user_account.balance = new_balance;
    ctx.user_account.bump = ctx.user_account_bump;
    Ok(Deposited { user: ctx.user, amount, new_balance })
}

/// What a withdrawal works on.
#[derive(Clone, Copy, Debug, PartialEq, Eq)]
pub struct Withdraw {
    /// The account that is drawn on.
    pub user_account: UserAccount,
    /// Who withdraws.
    pub user: Pubkey,
}

/// Takes `amount` out of the balance.
///
/// The balance is debited here, before any credit leaves the vault: the
/// caller moves the amount to the user's wallet only after this has
/// succeeded.
pub fn withdraw(ctx: &mut Withdraw, amount: u64) -> (r: Result<Withdrawn, ArenaError>)
    ensures
        final(ctx).user == old(ctx).user,
        old(ctx).user_account@.wf() ==> final(ctx).user_account@.wf(),
        match r {
            Ok(event) => {
                &&& old(ctx).user_account@.withdrawn(amount as int) == Ok::<
                    UserAccountView,
                    ArenaError,
                >(final(ctx).user_account@)
                &&& event == (Withdrawn {
                    user: old(ctx).user,
                    amount,
                    new_balance: final(ctx).user_account.balance,
                })
            },
            Err(e) => {
                &&& old(ctx).user_account@.withdrawn(amount as int) == Err::<
                    UserAccountView,
                    ArenaError,
                >(e)
                &&& *final(ctx) == *old(ctx)
            },
        },
{
    if amount == 0 {
        return Err(ArenaError::InvalidAmount);
    }
    if ctx.user_account.balance < amount {
        return Err(ArenaError::InsufficientBalance);
    }
    let new_balance: u64 = ctx.user_account.balance - amount;
    ctx.user_account.balance = new_balance;
    Ok(Withdrawn { user: ctx.user, amount, new_balance })
}

/// One step in the life of an account.
pub enum LedgerOp {
    /// A deposit of `amount` on behalf of `user`.
    Deposit { user: Pubkey, bump: u8, amount: u64 },
    /// A withdrawal of `amount`.
    Withdraw { amount: u64 },
    /// A stake of `amount` taken from the balance.
    Lock { amount: u64 },
    /// A win that pays `payout`.
    Credit { payout: u64 },
    /// A loss.
    Loss,
}

impl UserAccountView {
    /// The account after `op` was tried on it: changed as the operation
    /// says where it succeeds, and as it was where it fails.
    pub open spec fn after(self, op: LedgerOp) -> UserAccountView {
        let tried = match op {
            LedgerOp::Deposit { user, bump, amount } => self.deposited(
                user,
                bump as int,
                amount as int,
            ),
            LedgerOp::Withdraw { amount } => self.withdrawn(amount as int),
            LedgerOp::Lock { amount } => self.locked(amount as int),
            LedgerOp::Credit { payout } => self.credited(payout as int),
            LedgerOp::Loss => self.defeated(),
        };
        match tried {
            Ok(account) => account,
            Err(_) => self,
        }
    }

    /// The account after the operations `ops` were tried on it in turn.
    pub open spec fn after_all(self, ops: Seq<LedgerOp>) -> UserAccountView
        decreases ops.len(),
    {
        if ops.len() == 0 {
            self
        } else {
            self.after_all(ops.drop_last()).after(ops.last())
        }
    }
}

/// No operation overdraws an account: whatever is tried on a well-formed
/// account, the balance stays at or above zero and the running streak at or
/// below the best one.
pub proof fn lemma_step_keeps_account_wf(account: UserAccountView, op: LedgerOp)
    requires
        account.wf(),
    ensures
        account.after(op).wf(),
{
}

/// In every state that an account can reach from a well-formed one, by any
/// sequence of deposits, withdrawals, stakes, wins and losses, the balance
/// is at least zero and the running streak is at most the best one.
pub proof fn lemma_balance_never_negative(account: UserAccountView, ops: Seq<LedgerOp>)
    requires
        account.wf(),
    ensures
        account.after_all(ops).wf(),
        account.after_all(ops).balance >= 0,
    decreases ops.len(),
{
    if ops.len() > 0 {
        lemma_balance_never_negative(account, ops.drop_last());
        lemma_step_keeps_account_wf(account.after_all(ops.drop_last()), ops.last());
    }
}

} // verus!
