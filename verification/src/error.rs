//! The named rejections of the ledger's operations.

use vstd::prelude::*;

verus! {

/// Why an operation was rejected. A rejected operation has changed nothing.
#[derive(Clone, Copy, Debug, PartialEq, Eq, Structural)]
pub enum MyError {
    /// The caller of a reprice is not the market's authority.
    UnauthorizedToUpdateOdds,
    /// Some active outcome pays no more than the stake, or the book's implied
    /// probabilities add up to one or more.
    InvalidOdds,
    /// The selection, or the settlement outcome, names no outcome of the market.
    InvalidSelection,
    /// The market takes no bets at present.
    MarketClosed,
    /// The stake's gross return would exceed what the market covers per bet.
    StakeTooHigh,
    /// The caller of a bet settlement is not the market's authority, or the
    /// wallet to be paid is not the bettor's.
    UnauthorizedToSettleBet,
    /// A market has two or three outcomes, and another count was asked for.
    InvalidOutcomes,
    /// The market has been settled already, so it can be neither settled
    /// again nor opened.
    MarketSettled,
    /// The bet has been settled already.
    BetSettled,
    /// The market still takes bets, so nothing can be settled.
    MarketOpen,
    /// The bet does not carry the number that follows the market's last bet.
    InvalidBetId,
    /// The caller of a market settlement is not the market's authority.
    UnauthorizedToSettleMarket,
    /// The market has no outcome yet, so its bets cannot be settled.
    MarketNotSettled,
    /// The funds could not be moved: the source does not cover the amount, or
    /// the destination cannot hold it.
    TransferFailed,
}

impl MyError {
    /// The number under which each rejection is reported to callers.
    pub open spec fn code_of(self) -> u32 {
        match self {
            MyError::UnauthorizedToUpdateOdds => 0,
            MyError::InvalidOdds => 1,
            MyError::InvalidSelection => 2,
            MyError::MarketClosed => 3,
            MyError::StakeTooHigh => 4,
            MyError::UnauthorizedToSettleBet => 7,
            MyError::InvalidOutcomes => 8,
            MyError::MarketSettled => 9,
            MyError::BetSettled => 10,
            MyError::MarketOpen => 11,
            MyError::InvalidBetId => 13,
            MyError::UnauthorizedToSettleMarket => 14,
            MyError::MarketNotSettled => 15,
            MyError::TransferFailed => 16,
        }
    }

    /// The number under which this rejection is reported to callers.
    pub fn code(&self) -> (code: u32)
        ensures
            code == self.code_of(),
    {
        match self {
            MyError::UnauthorizedToUpdateOdds => 0,
            MyError::InvalidOdds => 1,
            MyError::InvalidSelection => 2,
            MyError::MarketClosed => 3,
            MyError::StakeTooHigh => 4,
            MyError::UnauthorizedToSettleBet => 7,
            MyError::InvalidOutcomes => 8,
            MyError::MarketSettled => 9,
            MyError::BetSettled => 10,
            MyError::MarketOpen => 11,
            MyError::InvalidBetId => 13,
            MyError::UnauthorizedToSettleMarket => 14,
            MyError::MarketNotSettled => 15,
            MyError::TransferFailed => 16,
        }
    }
}

/// No two rejections are reported under the same number.
pub proof fn lemma_codes_are_distinct(a: MyError, b: MyError)
    ensures
        a.code_of() == b.code_of() <==> a == b,
{
}

} // verus!
