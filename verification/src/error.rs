//! The failures an arena operation can report.

use vstd::prelude::*;

verus! {

/// Why an operation was rejected. A rejected operation leaves every
/// record it was given exactly as it found it.
#[derive(Clone, Copy, Debug, PartialEq, Eq, Structural)]
pub enum ArenaError {
    Unauthorized,
    InvalidAmount,
    InsufficientBalance,
    Overflow,
    Underflow,
    DivisionByZero,
    InvalidFeePercentage,
    DescriptionTooLong,
    CategoryTooLong,
    InvalidResolutionTime,
    MarketAlreadyResolved,
    MarketNotResolved,
    BettingClosed,
    ResolutionTimeNotReached,
    BetTooSmall,
    BetTooLarge,
    AlreadyClaimed,
    InvalidOracle,
    InvalidTreasury,
    InvalidPosition,
}

impl ArenaError {
    /// The words in which the failure is reported.
    pub open spec fn text(self) -> Seq<char> {
        match self {
            ArenaError::Unauthorized => "Unauthorized access"@,
            ArenaError::InvalidAmount => "Invalid amount"@,
            ArenaError::InsufficientBalance => "Insufficient balance"@,
            ArenaError::Overflow => "Arithmetic overflow"@,
            ArenaError::Underflow => "Arithmetic underflow"@,
            ArenaError::DivisionByZero => "Division by zero"@,
            ArenaError::InvalidFeePercentage => "Invalid fee percentage (max 10%)"@,
            ArenaError::DescriptionTooLong => "Description too long (max 200 characters)"@,
            ArenaError::CategoryTooLong => "Category too long (max 50 characters)"@,
            ArenaError::InvalidResolutionTime => "Invalid resolution time"@,
            ArenaError::MarketAlreadyResolved => "Market already resolved"@,
            ArenaError::MarketNotResolved => "Market not resolved yet"@,
            ArenaError::BettingClosed => "Betting is closed for this market"@,
            ArenaError::ResolutionTimeNotReached => "Resolution time not reached"@,
            ArenaError::BetTooSmall => "Bet amount too small (minimum 1 $SWTCH)"@,
            ArenaError::BetTooLarge => "Bet amount too large (maximum 10,000 $SWTCH)"@,
            ArenaError::AlreadyClaimed => "Already claimed winnings"@,
            ArenaError::InvalidOracle => "Invalid oracle feed"@,
            ArenaError::InvalidTreasury => "Invalid treasury account"@,
            ArenaError::InvalidPosition => "Invalid position"@,
        }
    }

    /// The words in which the failure is reported.
    pub fn message(&self) -> (words: String)
        ensures
            words@ == self.text(),
    {
        match self {
            ArenaError::Unauthorized => "Unauthorized access".to_owned(),
            ArenaError::InvalidAmount => "Invalid amount".to_owned(),
            ArenaError::InsufficientBalance => "Insufficient balance".to_owned(),
            ArenaError::Overflow => "Arithmetic overflow".to_owned(),
            ArenaError::Underflow => "Arithmetic underflow".to_owned(),
            ArenaError::DivisionByZero => "Division by zero".to_owned(),
            ArenaError::InvalidFeePercentage => "Invalid fee percentage (max 10%)".to_owned(),
            ArenaError::DescriptionTooLong => "Description too long (max 200 characters)".to_owned(),
            ArenaError::CategoryTooLong => "Category too long (max 50 characters)".to_owned(),
            ArenaError::InvalidResolutionTime => "Invalid resolution time".to_owned(),
            ArenaError::MarketAlreadyResolved => "Market already resolved".to_owned(),
            ArenaError::MarketNotResolved => "Market not resolved yet".to_owned(),
            ArenaError::BettingClosed => "Betting is closed for this market".to_owned(),
            ArenaError::ResolutionTimeNotReached => "Resolution time not reached".to_owned(),
            ArenaError::BetTooSmall => "Bet amount too small (minimum 1 $SWTCH)".to_owned(),
            ArenaError::BetTooLarge => "Bet amount too large (maximum 10,000 $SWTCH)".to_owned(),
            ArenaError::AlreadyClaimed => "Already claimed winnings".to_owned(),
            ArenaError::InvalidOracle => "Invalid oracle feed".to_owned(),
            ArenaError::InvalidTreasury => "Invalid treasury account".to_owned(),
            ArenaError::InvalidPosition => "Invalid position".to_owned(),
        }
    }
}

} // verus!
