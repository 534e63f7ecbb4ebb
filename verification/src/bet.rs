//! The bet record: one bettor's stake on one outcome, at the odds of the
//! moment it was placed.

use crate::odds::{gross_return, payout};
use crate::party::Identity;
use vstd::prelude::*;

verus! {

/// How a bet stands: undecided, or decided in one of three ways.
#[derive(Clone, Copy, Debug, PartialEq, Eq, Structural)]
pub enum BetResult {
    Pending,
    Win,
    Lose,
    Void,
}

/// A stake on one outcome of one market. Once written, only `settled` and
/// `result` ever change, and they change once.
#[derive(Clone, Copy, Debug, PartialEq, Eq)]
pub struct Bet {
    /// The bet's place in its market's sequence of bets.
    pub bet_id: u32,
    /// The market's authority at placement: the party obliged to pay.
    pub authority: Identity,
    /// The bettor.
    pub user: Identity,
    pub market_id: u32,
    pub event_id: u32,
    /// The outcome staked on: 1, 2 or 3.
    pub selection: u8,
    /// The stake, in the smallest subunit.
    pub amount: u64,
    pub settled: bool,
    pub result: BetResult,
    /// The odds of the selection when the bet was placed.
    pub odds: u16,
    /// The gross return if the selection wins, fixed when the bet was placed.
    pub expected_payout: u64,
}

impl Bet {
    /// What holds of every bet that was admitted.
    pub open spec fn wf(&self) -> bool {
        &&& 1 <= self.selection <= 3
        &&& self.odds > 1000
        &&& self.expected_payout == gross_return(self.amount as int, self.odds as int)
        &&& self.settled <==> self.result != BetResult::Pending
    }

    /// Checks a record that came from outside against `wf`.
    pub fn is_well_formed(&self) -> (ok: bool)
        ensures
            ok == self.wf(),
    {
        let pending = match self.result {
            BetResult::Pending => true,
            _ => false,
        };
        1 <= self.selection && self.selection <= 3 && self.odds > 1000 && self.expected_payout as u128
            == payout(self.amount, self.odds) && self.settled != pending
    }
}

} // verus!
