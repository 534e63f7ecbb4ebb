//! The market record and the operations of its life before settlement:
//! creation, repricing, opening and closing.

use crate::error::MyError;
use crate::odds::{acceptable_odds, odds_are_acceptable, third_as_int};
use crate::party::Identity;
use vstd::prelude::*;

verus! {

/// A priced proposition with two or three outcomes. The record also owns the
/// funds that back it: the stakes it has taken and not yet paid out.
#[derive(Clone, Debug, PartialEq, Eq)]
pub struct Market {
    /// The party that created the market and is obliged to pay its winners.
    pub authority: Identity,
    pub event_id: u32,
    pub event_name: String,
    pub market_id: u32,
    pub market_name: String,
    /// Set when the market has exactly two outcomes.
    pub two_way: bool,
    /// Set when the market has exactly three outcomes.
    pub three_way: bool,
    /// A handicap or total; absent when none was given.
    pub line: Option<u16>,
    pub outcome_one: String,
    pub outcome_two: String,
    /// The third outcome's name, present exactly on a three-way market.
    pub outcome_three: Option<String>,
    pub outcome_one_odds: u16,
    pub outcome_two_odds: u16,
    /// The third outcome's odds, present exactly on a three-way market.
    pub outcome_three_odds: Option<u16>,
    /// Whether the market takes bets.
    pub open: bool,
    /// 0 while unsettled; 1 to 3 for the outcome that won; 4 when the market
    /// was voided.
    pub winning_outcome: u8,
    pub settled: bool,
    /// The largest gross return the market covers for a single bet.
    pub max_win: u64,
    /// The number of the last bet admitted; 0 before the first.
    pub last_bet_id: u32,
    /// The funds held in escrow, in the smallest subunit.
    pub escrow: u64,
}

impl Market {
    /// The third outcome's odds as a mathematical integer, where there is one.
    pub open spec fn third_odds(&self) -> Option<int> {
        third_as_int(self.outcome_three_odds)
    }

    /// The odds stored for a selection; meaningful for the selections that the
    /// market offers.
    pub open spec fn odds_of(&self, selection: u8) -> u16 {
        if selection == 1 {
            self.outcome_one_odds
        } else if selection == 2 {
            self.outcome_two_odds
        } else {
            self.outcome_three_odds.unwrap_or(0)
        }
    }

    /// What holds of every market record between operations.
    pub open spec fn wf(&self) -> bool {
        &&& self.two_way != self.three_way
        &&& self.outcome_three is Some <==> self.three_way
        &&& self.outcome_three_odds is Some <==> self.three_way
        &&& self.line != Some(0u16)
        &&& acceptable_odds(
            self.outcome_one_odds as int,
            self.outcome_two_odds as int,
            self.third_odds(),
        )
        &&& !(self.open && self.settled)
        &&& if self.settled {
            1 <= self.winning_outcome <= 4
        } else {
            self.winning_outcome == 0
        }
    }

    /// Checks a record that came from outside against `wf`.
    pub fn is_well_formed(&self) -> (ok: bool)
        ensures
            ok == self.wf(),
    {
        let shape = self.two_way != self.three_way && self.outcome_three.is_some()
            == self.three_way && self.outcome_three_odds.is_some() == self.three_way;
        let line = match self.line {
            Some(l) => l != 0,
            None => true,
        };
        let state = !(self.open && self.settled) && if self.settled {
            1 <= self.winning_outcome && self.winning_outcome <= 4
        } else {
            self.winning_outcome == 0
        };
        shape && line && state && odds_are_acceptable(
            self.outcome_one_odds,
            self.outcome_two_odds,
            self.outcome_three_odds,
        )
    }
}

/// What market creation works on: the record to fill and the creating party.
#[derive(Clone, Debug, PartialEq, Eq)]
pub struct InitializeMarket {
    pub market: Market,
    pub authority: Identity,
}

/// What a reprice works on: the market and the calling party.
#[derive(Clone, Debug, PartialEq, Eq)]
pub struct UpdateOdds {
    pub market: Market,
    pub authority: Identity,
}

/// What closing works on: the market and the calling party.
#[derive(Clone, Debug, PartialEq, Eq)]
pub struct CloseMarket {
    pub market: Market,
    pub authority: Identity,
}

/// What opening works on: the market and the calling party.
#[derive(Clone, Debug, PartialEq, Eq)]
pub struct OpenMarket {
    pub market: Market,
    pub authority: Identity,
}

/// The third outcome's odds that a market of `outcomes` outcomes stores.
pub open spec fn third_for(outcomes: u8, outcome_three_odds: u16) -> Option<u16> {
    if outcomes == 3 {
        Some(outcome_three_odds)
    } else {
        None
    }
}

/// Why a creation is rejected, if it is: first for the number of outcomes,
/// then for the odds.
pub open spec fn creation_rejection(
    outcomes: u8,
    outcome_one_odds: u16,
    outcome_two_odds: u16,
    outcome_three_odds: u16,
) -> Option<MyError> {
    if outcomes != 2 && outcomes != 3 {
        Some(MyError::InvalidOutcomes)
    } else if !acceptable_odds(
        outcome_one_odds as int,
        outcome_two_odds as int,
        third_as_int(third_for(outcomes, outcome_three_odds)),
    ) {
        Some(MyError::InvalidOdds)
    } else {
        None
    }
}

/// The record that a successful creation writes. The funds that the record
/// already held stay with it.
pub open spec fn created_market(
    authority: Identity,
    escrow: u64,
    event_id: u32,
    market_id: u32,
    event_name: String,
    market_name: String,
    outcomes: u8,
    line: u16,
    outcome_one: String,
    outcome_two: String,
    outcome_three: String,
    outcome_one_odds: u16,
    outcome_two_odds: u16,
    outcome_three_odds: u16,
    max_win: u64,
) -> Market {
    Market {
        authority,
        event_id,
        event_name,
        market_id,
        market_name,
        two_way: outcomes == 2,
        three_way: outcomes == 3,
        line: if line == 0 {
            None
        } else {
            Some(line)
        },
        outcome_one,
        outcome_two,
        outcome_three: if outcomes == 3 {
            Some(outcome_three)
        } else {
            None
        },
        outcome_one_odds,
        outcome_two_odds,
        outcome_three_odds: third_for(outcomes, outcome_three_odds),
        open: false,
        winning_outcome: 0,
        settled: false,
        max_win,
        last_bet_id: 0,
        escrow,
    }
}

/// Creates a market of two or three outcomes for the calling party, closed
/// and unsettled, with no bet admitted yet.
///
/// The third outcome's name and odds are read only when `outcomes` is 3.
/// `max_win` is the ceiling on the gross return of a single bet. A rejected
/// creation writes nothing.
pub fn initialize_market(
    ctx: &mut InitializeMarket,
    event_id: u32,
    market_id: u32,
    event_name: String,
    market_name: String,
    outcomes: u8,
    line: u16,
    outcome_one: String,
    outcome_two: String,
    outcome_three: String,
    outcome_one_odds: u16,
    outcome_two_odds: u16,
    outcome_three_odds: u16,
    max_win: u64,
) -> (result: Result<(), MyError>)
    ensures
        match creation_rejection(outcomes, outcome_one_odds, outcome_two_odds, outcome_three_odds) {
            Some(e) => result == Err::<(), MyError>(e) && *final(ctx) == *old(ctx),
            None => {
                &&& result is Ok
                &&& final(ctx).authority == old(ctx).authority
                &&& final(ctx).market == created_market(
                    old(ctx).authority,
                    old(ctx).market.escrow,
                    event_id,
                    market_id,
                    event_name,
                    market_name,
                    outcomes,
                    line,
                    outcome_one,
                    outcome_two,
                    outcome_three,
                    outcome_one_odds,
                    outcome_two_odds,
                    outcome_three_odds,
                    max_win,
                )
                &&& final(ctx).market.wf()
            },
        },
{
    if outcomes != 2 && outcomes != 3 {
        return Err(MyError::InvalidOutcomes);
    }
    let third = if outcomes == 3 {
        Some(outcome_three_odds)
    } else {
        None
    };
    if !odds_are_acceptable(outcome_one_odds, outcome_two_odds, third) {
        return Err(MyError::InvalidOdds);
    }
    ctx.market.authority = ctx.authority;
    ctx.market.event_id = event_id;
    ctx.market.event_name = event_name;
    ctx.market.market_id = market_id;
    ctx.market.market_name = market_name;
    if outcomes == 2 {
        ctx.market.two_way = true;
        ctx.market.three_way = false;
        ctx.market.outcome_three = None;
    } else {
        ctx.market.two_way = false;
        ctx.market.three_way = true;
        ctx.market.outcome_three = Some(outcome_three);
    }
    ctx.market.outcome_three_odds = third;
    if line == 0 {
        ctx.market.line = None;
    } else {
        ctx.market.line = Some(line);
    }
    ctx.market.outcome_one = outcome_one;
    ctx.market.outcome_two = outcome_two;
    ctx.market.outcome_one_odds = outcome_one_odds;
    ctx.market.outcome_two_odds = outcome_two_odds;
    ctx.market.open = false;
    ctx.market.winning_outcome = 0;
    ctx.market.settled = false;
    ctx.market.max_win = max_win;
    ctx.market.last_bet_id = 0;
    Ok(())
}

/// The third outcome's odds that a reprice stores in a market of this shape.
pub open spec fn repriced_third(market: Market, outcome_three_odds: u16) -> Option<u16> {
    if market.three_way {
        Some(outcome_three_odds)
    } else {
        None
    }
}

/// Why a reprice is rejected, if it is: first for the odds, judged against
/// the shape the market has, then for the caller.
pub open spec fn reprice_rejection(
    ctx: UpdateOdds,
    outcome_one_odds: u16,
    outcome_two_odds: u16,
    outcome_three_odds: u16,
) -> Option<MyError> {
    if !acceptable_odds(
        outcome_one_odds as int,
        outcome_two_odds as int,
        third_as_int(repriced_third(ctx.market, outcome_three_odds)),
    ) {
        Some(MyError::InvalidOdds)
    } else if ctx.market.authority != ctx.authority {
        Some(MyError::UnauthorizedToUpdateOdds)
    } else {
        None
    }
}

/// What `update_odds` does to the records it is handed, or why it rejects.
pub open spec fn update_odds_outcome(
    ctx: UpdateOdds,
    outcome_one_odds: u16,
    outcome_two_odds: u16,
    outcome_three_odds: u16,
) -> Result<UpdateOdds, MyError> {
    match reprice_rejection(ctx, outcome_one_odds, outcome_two_odds, outcome_three_odds) {
        Some(e) => Err(e),
        None => Ok(
            UpdateOdds {
                market: Market {
                    outcome_one_odds,
                    outcome_two_odds,
                    outcome_three_odds: repriced_third(ctx.market, outcome_three_odds),
                    ..ctx.market
                },
                ..ctx
            },
        ),
    }
}

/// Replaces the odds of a market, keeping its number of outcomes. Only the
/// market's authority may do so, at any point of the market's life; bets
/// placed earlier keep the odds they were placed at.
///
/// The third outcome's odds are read only on a three-way market.
pub fn update_odds(
    ctx: &mut UpdateOdds,
    outcome_one_odds: u16,
    outcome_two_odds: u16,
    outcome_three_odds: u16,
) -> (result: Result<(), MyError>)
    requires
        old(ctx).market.wf(),
    ensures
        final(ctx).market.wf(),
        match update_odds_outcome(*old(ctx), outcome_one_odds, outcome_two_odds, outcome_three_odds) {
            Ok(next) => result is Ok && *final(ctx) == next,
            Err(e) => result == Err::<(), MyError>(e) && *final(ctx) == *old(ctx),
        },
{
    let third = if ctx.market.three_way {
        Some(outcome_three_odds)
    } else {
        None
    };
    if !odds_are_acceptable(outcome_one_odds, outcome_two_odds, third) {
        return Err(MyError::InvalidOdds);
    }
    if ctx.market.authority != ctx.authority {
        return Err(MyError::UnauthorizedToUpdateOdds);
    }
    ctx.market.outcome_one_odds = outcome_one_odds;
    ctx.market.outcome_two_odds = outcome_two_odds;
    ctx.market.outcome_three_odds = third;
    Ok(())
}

/// Stops the market from taking bets. Whoever calls may do so: the caller is
/// not held against the market's authority. Nothing else in the record
/// changes, and the operation never rejects.
pub fn close_market(ctx: &mut CloseMarket) -> (result: Result<(), MyError>)
    ensures
        result is Ok,
        *final(ctx) == (CloseMarket { market: Market { open: false, ..old(ctx).market }, ..*old(ctx) }),
        old(ctx).market.wf() ==> final(ctx).market.wf(),
{
    ctx.market.open = false;
    Ok(())
}

/// What `open_market` does to the records it is handed, or why it rejects:
/// a settled market stays closed for good, and any other market is open
/// afterwards with nothing else changed.
pub open spec fn open_market_outcome(ctx: OpenMarket) -> Result<OpenMarket, MyError> {
    if ctx.market.settled {
        Err(MyError::MarketSettled)
    } else {
        Ok(OpenMarket { market: Market { open: true, ..ctx.market }, ..ctx })
    }
}

/// Lets the market take bets. Whoever calls may do so: the caller is not held
/// against the market's authority. A market that has been settled is not
/// opened again; on any other market nothing but `open` changes.
pub fn open_market(ctx: &mut OpenMarket) -> (result: Result<(), MyError>)
    ensures
        match open_market_outcome(*old(ctx)) {
            Ok(next) => result is Ok && *final(ctx) == next,
            Err(e) => result == Err::<(), MyError>(e) && *final(ctx) == *old(ctx),
        },
        old(ctx).market.wf() ==> final(ctx).market.wf(),
        !(old(ctx).market.open && old(ctx).market.settled) ==> !(final(ctx).market.open
            && final(ctx).market.settled),
{
    if ctx.market.settled {
        return Err(MyError::MarketSettled);
    }
    ctx.market.open = true;
    Ok(())
}

} // verus!
