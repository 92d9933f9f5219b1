use arena::error::ArenaError;
use arena::events::{Deposited, Withdrawn};
use arena::identity::Pubkey;
use arena::ledger::{deposit, withdraw, Deposit, Withdraw};
use arena::state::UserAccount;

fn key(tag: u8) -> Pubkey {
    Pubkey::new([tag; 32])
}

fn empty_account() -> UserAccount {
    UserAccount {
        user: key(0),
        balance: 0,
        total_wagered: 0,
        total_won: 0,
        wins: 0,
        losses: 0,
        current_streak: 0,
        best_streak: 0,
        bump: 0,
    }
}

fn account_with(balance: u64) -> UserAccount {
    UserAccount { user: key(7), balance, bump: 254, ..empty_account() }
}

#[test]
fn keys_are_compared_byte_by_byte() {
    let mut bytes = [9u8; 32];
    assert!(key(9).same(&Pubkey::new(bytes)));
    bytes[31] = 8;
    assert!(!key(9).same(&Pubkey::new(bytes)));
    bytes[31] = 9;
    bytes[0] = 10;
    assert!(!key(9).same(&Pubkey::new(bytes)));
    assert_eq!(Pubkey::new(bytes).bytes, bytes);
}

#[test]
fn first_deposit_claims_the_account() {
    let mut ctx = Deposit { user_account: empty_account(), user: key(7), user_account_bump: 254 };
    let event = deposit(&mut ctx, 5_000_000).unwrap();
    assert_eq!(event, Deposited { user: key(7), amount: 5_000_000, new_balance: 5_000_000 });
    assert_eq!(ctx.user_account, account_with(5_000_000));
}

#[test]
fn deposits_add_up() {
    let mut ctx = Deposit { user_account: account_with(40), user: key(7), user_account_bump: 254 };
    assert_eq!(deposit(&mut ctx, 1).unwrap().new_balance, 41);
    assert_eq!(deposit(&mut ctx, 59).unwrap().new_balance, 100);
    assert_eq!(ctx.user_account.balance, 100);
    assert_eq!(ctx.user_account.total_wagered, 0);
}

#[test]
fn deposit_of_nothing_is_invalid() {
    let mut ctx = Deposit { user_account: account_with(40), user: key(8), user_account_bump: 1 };
    let before = ctx;
    assert_eq!(deposit(&mut ctx, 0), Err(ArenaError::InvalidAmount));
    assert_eq!(ctx, before);
}

#[test]
fn deposit_past_the_top_overflows() {
    let mut ctx =
        Deposit { user_account: account_with(u64::MAX - 1), user: key(8), user_account_bump: 1 };
    let before = ctx;
    assert_eq!(deposit(&mut ctx, 2), Err(ArenaError::Overflow));
    assert_eq!(ctx, before);
    assert_eq!(deposit(&mut ctx, 1).unwrap().new_balance, u64::MAX);
}

#[test]
fn withdrawal_debits_the_balance() {
    let mut ctx = Withdraw { user_account: account_with(100), user: key(7) };
    let event = withdraw(&mut ctx, 30).unwrap();
    assert_eq!(event, Withdrawn { user: key(7), amount: 30, new_balance: 70 });
    assert_eq!(ctx.user_account, account_with(70));
}

#[test]
fn withdrawal_of_everything_leaves_zero() {
    let mut ctx = Withdraw { user_account: account_with(100), user: key(7) };
    assert_eq!(withdraw(&mut ctx, 100).unwrap().new_balance, 0);
    assert_eq!(ctx.user_account.balance, 0);
}

#[test]
fn withdrawal_of_nothing_is_invalid() {
    let mut ctx = Withdraw { user_account: account_with(100), user: key(7) };
    assert_eq!(withdraw(&mut ctx, 0), Err(ArenaError::InvalidAmount));
    assert_eq!(ctx.user_account, account_with(100));
}

#[test]
fn withdrawal_beyond_the_balance_is_refused() {
    let mut ctx = Withdraw { user_account: account_with(100), user: key(7) };
    assert_eq!(withdraw(&mut ctx, 101), Err(ArenaError::InsufficientBalance));
    assert_eq!(ctx.user_account, account_with(100));
    let mut broke = Withdraw { user_account: account_with(0), user: key(7) };
    assert_eq!(withdraw(&mut broke, 1), Err(ArenaError::InsufficientBalance));
}

#[test]
fn lock_moves_balance_into_wagered() {
    let mut account = account_with(10);
    assert_eq!(account.lock_for_bet(4), Ok(()));
    assert_eq!(account, UserAccount { balance: 6, total_wagered: 4, ..account_with(0) });
    assert_eq!(account.lock_for_bet(6), Ok(()));
    assert_eq!(account, UserAccount { balance: 0, total_wagered: 10, ..account_with(0) });
}

#[test]
fn lock_beyond_the_balance_is_refused() {
    let mut account = account_with(10);
    assert_eq!(account.lock_for_bet(11), Err(ArenaError::InsufficientBalance));
    assert_eq!(account, account_with(10));
}

#[test]
fn lock_that_overflows_the_wagered_total_is_refused() {
    let mut account = UserAccount { total_wagered: u64::MAX - 3, ..account_with(10) };
    let before = account;
    assert_eq!(account.lock_for_bet(4), Err(ArenaError::Overflow));
    assert_eq!(account, before);
    assert_eq!(account.lock_for_bet(3), Ok(()));
    assert_eq!(account.total_wagered, u64::MAX);
    assert_eq!(account.balance, 7);
}

#[test]
fn credit_counts_the_win_and_extends_the_streak() {
    let mut account = UserAccount { current_streak: 2, best_streak: 2, wins: 5, ..account_with(10) };
    assert_eq!(account.credit_winnings(90), Ok(()));
    assert_eq!(
        account,
        UserAccount {
            balance: 100,
            total_won: 90,
            wins: 6,
            current_streak: 3,
            best_streak: 3,
            ..account_with(0)
        }
    );
}

#[test]
fn credit_below_the_best_streak_leaves_the_best() {
    let mut account = UserAccount { current_streak: 1, best_streak: 9, ..account_with(0) };
    assert_eq!(account.credit_winnings(0), Ok(()));
    assert_eq!(account.current_streak, 2);
    assert_eq!(account.best_streak, 9);
    assert_eq!(account.wins, 1);
    assert_eq!(account.balance, 0);
}

#[test]
fn credit_that_overflows_changes_nothing() {
    let mut rich = account_with(u64::MAX);
    assert_eq!(rich.credit_winnings(1), Err(ArenaError::Overflow));
    assert_eq!(rich, account_with(u64::MAX));
    let mut lucky = UserAccount { total_won: u64::MAX, ..account_with(0) };
    assert_eq!(lucky.credit_winnings(1), Err(ArenaError::Overflow));
    assert_eq!(lucky.balance, 0);
    let mut veteran = UserAccount { wins: u32::MAX, ..account_with(0) };
    assert_eq!(veteran.credit_winnings(1), Err(ArenaError::Overflow));
    assert_eq!(veteran.balance, 0);
    let mut streaker =
        UserAccount { current_streak: u32::MAX, best_streak: u32::MAX, ..account_with(0) };
    assert_eq!(streaker.credit_winnings(1), Err(ArenaError::Overflow));
    assert_eq!(streaker.balance, 0);
    assert_eq!(streaker.wins, 0);
}

#[test]
fn loss_ends_the_streak() {
    let mut account = UserAccount { current_streak: 4, best_streak: 6, losses: 2, ..account_with(10) };
    assert_eq!(account.record_loss(), Ok(()));
    assert_eq!(
        account,
        UserAccount { current_streak: 0, best_streak: 6, losses: 3, ..account_with(10) }
    );
}

#[test]
fn loss_count_does_not_wrap() {
    let mut account = UserAccount { current_streak: 4, best_streak: 6, losses: u32::MAX, ..account_with(10) };
    let before = account;
    assert_eq!(account.record_loss(), Err(ArenaError::Overflow));
    assert_eq!(account, before);
}

#[test]
fn balance_stays_at_or_above_zero_through_a_run() {
    let mut account = empty_account();
    let mut ctx = Deposit { user_account: account, user: key(7), user_account_bump: 1 };
    deposit(&mut ctx, 10).unwrap();
    account = ctx.user_account;
    assert_eq!(account.lock_for_bet(11), Err(ArenaError::InsufficientBalance));
    assert_eq!(account.lock_for_bet(10), Ok(()));
    assert_eq!(account.balance, 0);
    let mut out = Withdraw { user_account: account, user: key(7) };
    assert_eq!(withdraw(&mut out, 1), Err(ArenaError::InsufficientBalance));
    account = out.user_account;
    assert_eq!(account.record_loss(), Ok(()));
    assert_eq!(account.credit_winnings(3), Ok(()));
    let mut out = Withdraw { user_account: account, user: key(7) };
    assert_eq!(withdraw(&mut out, 4), Err(ArenaError::InsufficientBalance));
    assert_eq!(withdraw(&mut out, 3).unwrap().new_balance, 0);
    assert_eq!(out.user_account.balance, 0);
    assert!(out.user_account.current_streak <= out.user_account.best_streak);
}
