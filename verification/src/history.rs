//! Histories: what a market has become after a run of operations, and what
//! holds of it however the run went.

use crate::admission::{place_bet_outcome, PlaceBet};
use crate::bet::Bet;
use crate::market::{open_market_outcome, update_odds_outcome, Market, OpenMarket, UpdateOdds};
use crate::party::{Identity, Wallet};
use crate::settlement::{
    amount_due, settle_bet_outcome, settle_market_outcome, SettleBet, SettleMarket,
};
use vstd::prelude::*;

verus! {

/// One call of an operation on a market, with everything the call brings
/// along besides the market itself.
pub enum Step {
    Reprice { caller: Identity, outcome_one_odds: u16, outcome_two_odds: u16, outcome_three_odds: u16 },
    Open { caller: Identity },
    Close,
    Place {
        bet: Bet,
        bettor: Wallet,
        event_id: u32,
        market_id: u32,
        bet_id: u32,
        selection: u8,
        amount: u64,
    },
    SettleMarket { caller: Identity, outcome: u8 },
    SettleBet { bet: Bet, caller: Identity, user: Wallet },
}

/// The market after one step. A rejected step leaves the market as it was.
pub open spec fn market_after_step(market: Market, step: Step) -> Market {
    match step {
        Step::Reprice { caller, outcome_one_odds, outcome_two_odds, outcome_three_odds } => {
            match update_odds_outcome(
                UpdateOdds { market, authority: caller },
                outcome_one_odds,
                outcome_two_odds,
                outcome_three_odds,
            ) {
                Ok(next) => next.market,
                Err(_) => market,
            }
        },
        Step::Open { caller } => {
            match open_market_outcome(OpenMarket { market, authority: caller }) {
                Ok(next) => next.market,
                Err(_) => market,
            }
        },
        Step::Close => Market { open: false, ..market },
        Step::Place { bet, bettor, event_id, market_id, bet_id, selection, amount } => {
            match place_bet_outcome(
                PlaceBet { bet, market, authority: bettor },
                event_id,
                market_id,
                bet_id,
                selection,
                amount,
            ) {
                Ok(next) => next.market,
                Err(_) => market,
            }
        },
        Step::SettleMarket { caller, outcome } => {
            match settle_market_outcome(SettleMarket { market, authority: caller }, outcome) {
                Ok(next) => next.market,
                Err(_) => market,
            }
        },
        Step::SettleBet { bet, caller, user } => {
            match settle_bet_outcome(SettleBet { bet, market, authority: caller, user }) {
                Ok(next) => next.market,
                Err(_) => market,
            }
        },
    }
}

/// The bet that a step admits to the market, if it admits one.
pub open spec fn bet_admitted_by(market: Market, step: Step) -> Option<Bet> {
    match step {
        Step::Place { bet, bettor, event_id, market_id, bet_id, selection, amount } => {
            match place_bet_outcome(
                PlaceBet { bet, market, authority: bettor },
                event_id,
                market_id,
                bet_id,
                selection,
                amount,
            ) {
                Ok(next) => Some(next.bet),
                Err(_) => None,
            }
        },
        _ => None,
    }
}

/// The market after a run of steps, taken in order.
pub open spec fn market_after(market: Market, steps: Seq<Step>) -> Market
    decreases steps.len(),
{
    if steps.len() == 0 {
        market
    } else {
        market_after_step(market_after(market, steps.drop_last()), steps.last())
    }
}

/// The bets that a run of steps admits to the market, in the order of their
/// admission.
pub open spec fn bets_admitted(market: Market, steps: Seq<Step>) -> Seq<Bet>
    decreases steps.len(),
{
    if steps.len() == 0 {
        Seq::empty()
    } else {
        let earlier = bets_admitted(market, steps.drop_last());
        match bet_admitted_by(market_after(market, steps.drop_last()), steps.last()) {
            Some(bet) => earlier.push(bet),
            None => earlier,
        }
    }
}

/// A well-formed market stays well-formed through every history: it is never
/// open and settled at once, its winning outcome is 0 until it is settled and
/// 1 to 4 from then on, and it always carries acceptable odds.
pub proof fn lemma_history_keeps_market_well_formed(market: Market, steps: Seq<Step>)
    requires
        market.wf(),
    ensures
        market_after(market, steps).wf(),
    decreases steps.len(),
{
    if steps.len() > 0 {
        lemma_history_keeps_market_well_formed(market, steps.drop_last());
    }
}

/// Through every history the bets admitted to a market carry consecutive
/// numbers that continue from the market's counter, so from 1 on a market
/// that has admitted none; and the counter stands at the number of the last
/// bet admitted. A step that admits no bet leaves the counter where it was.
pub proof fn lemma_admitted_bets_are_numbered_in_order(market: Market, steps: Seq<Step>)
    ensures
        market_after(market, steps).last_bet_id == market.last_bet_id + bets_admitted(
            market,
            steps,
        ).len(),
        forall|i: int|
            0 <= i < bets_admitted(market, steps).len() ==> (#[trigger] bets_admitted(
                market,
                steps,
            )[i]).bet_id == market.last_bet_id + i + 1,
    decreases steps.len(),
{
    if steps.len() > 0 {
        lemma_admitted_bets_are_numbered_in_order(market, steps.drop_last());
    }
}

/// A step that admits no bet leaves the market's counter where it was; one
/// that admits a bet moves it on by exactly one, to that bet's number.
pub proof fn lemma_counter_moves_with_admissions_only(market: Market, step: Step)
    ensures
        match bet_admitted_by(market, step) {
            Some(bet) => {
                &&& bet.bet_id == market.last_bet_id + 1
                &&& market_after_step(market, step).last_bet_id == bet.bet_id
            },
            None => market_after_step(market, step).last_bet_id == market.last_bet_id,
        },
{
}

/// Every bet admitted in a history stays within the ceiling of its market:
/// the gross return recorded in it does not exceed `max_win`.
pub proof fn lemma_admitted_bets_stay_within_ceiling(market: Market, steps: Seq<Step>)
    requires
        market.wf(),
    ensures
        market_after(market, steps).max_win == market.max_win,
        forall|i: int|
            0 <= i < bets_admitted(market, steps).len() ==> {
                let bet = #[trigger] bets_admitted(market, steps)[i];
                &&& bet.wf()
                &&& bet.expected_payout <= market.max_win
            },
    decreases steps.len(),
{
    if steps.len() > 0 {
        lemma_admitted_bets_stay_within_ceiling(market, steps.drop_last());
        lemma_history_keeps_market_well_formed(market, steps.drop_last());
    }
}

/// What a market is about never changes after creation: its authority, its
/// event and market, its names, line, number of outcomes and ceiling stay
/// through every history. Odds change by repricing only.
pub proof fn lemma_history_keeps_market_identity(market: Market, steps: Seq<Step>)
    ensures
        ({
            let later = market_after(market, steps);
            later == Market {
                outcome_one_odds: later.outcome_one_odds,
                outcome_two_odds: later.outcome_two_odds,
                outcome_three_odds: later.outcome_three_odds,
                open: later.open,
                winning_outcome: later.winning_outcome,
                settled: later.settled,
                last_bet_id: later.last_bet_id,
                escrow: later.escrow,
                ..market
            }
        }),
    decreases steps.len(),
{
    if steps.len() > 0 {
        lemma_history_keeps_market_identity(market, steps.drop_last());
    }
}

/// Settlement is final: once a market is settled, no history unsettles it,
/// reopens it or changes its winning outcome.
pub proof fn lemma_settlement_is_final(market: Market, steps: Seq<Step>)
    requires
        market.wf(),
        market.settled,
    ensures
        market_after(market, steps).settled,
        !market_after(market, steps).open,
        market_after(market, steps).winning_outcome == market.winning_outcome,
    decreases steps.len(),
{
    if steps.len() > 0 {
        lemma_settlement_is_final(market, steps.drop_last());
        lemma_history_keeps_market_well_formed(market, steps.drop_last());
    }
}

/// Funds enter the escrow with an admitted stake and leave it with a
/// settled bet, and by no other step: an admission adds exactly the stake, a
/// bet settlement takes exactly what is due, and every other step, like
/// every rejected one, leaves the escrow as it was.
pub proof fn lemma_escrow_moves_with_stakes_and_payouts_only(market: Market, step: Step)
    ensures
        match step {
            Step::Place { bet, bettor, event_id, market_id, bet_id, selection, amount } => {
                market_after_step(market, step).escrow == if bet_admitted_by(market, step) is Some {
                    market.escrow + amount
                } else {
                    market.escrow as int
                }
            },
            Step::SettleBet { bet, caller, user } => {
                market_after_step(market, step).escrow == if settle_bet_outcome(
                    SettleBet { bet, market, authority: caller, user },
                ) is Ok {
                    market.escrow - amount_due(market.winning_outcome, bet)
                } else {
                    market.escrow as int
                }
            },
            _ => market_after_step(market, step).escrow == market.escrow,
        },
{
}

} // verus!
