//! Settlement: the market's outcome is fixed once, and then each of its bets
//! is resolved once, paid out of the market's escrow.

use crate::bet::{Bet, BetResult};
use crate::error::MyError;
use crate::market::{update_odds_outcome, Market, UpdateOdds};
use crate::party::{transfer, transfer_outcome, Identity, Wallet};
use vstd::prelude::*;

verus! {

/// What a market settlement works on: the market and the calling party.
#[derive(Clone, Debug, PartialEq, Eq)]
pub struct SettleMarket {
    pub market: Market,
    pub authority: Identity,
}

/// What a bet settlement works on: the bet, its market, the calling party,
/// and the bettor's wallet, which receives whatever is due.
#[derive(Clone, Debug, PartialEq, Eq)]
pub struct SettleBet {
    pub bet: Bet,
    pub market: Market,
    pub authority: Identity,
    pub user: Wallet,
}

/// Why a market settlement is rejected, if it is. The checks come in this
/// order: the outcome is 1 to 4; the market is closed; it is not settled yet;
/// the caller is its authority.
pub open spec fn market_settlement_rejection(ctx: SettleMarket, outcome: u8) -> Option<MyError> {
    if !(1 <= outcome <= 4) {
        Some(MyError::InvalidSelection)
    } else if ctx.market.open {
        Some(MyError::MarketOpen)
    } else if ctx.market.settled {
        Some(MyError::MarketSettled)
    } else if ctx.market.authority != ctx.authority {
        Some(MyError::UnauthorizedToSettleMarket)
    } else {
        None
    }
}

/// What `settle_market` does to the records it is handed, or why it rejects.
pub open spec fn settle_market_outcome(ctx: SettleMarket, outcome: u8) -> Result<
    SettleMarket,
    MyError,
> {
    match market_settlement_rejection(ctx, outcome) {
        Some(e) => Err(e),
        None => Ok(
            SettleMarket {
                market: Market { settled: true, winning_outcome: outcome, ..ctx.market },
                ..ctx
            },
        ),
    }
}

/// Fixes the outcome of a closed market for good: 1 to 3 names the outcome
/// that won, 4 voids the market. Only the market's authority may do so, and
/// only once.
pub fn settle_market(ctx: &mut SettleMarket, outcome: u8) -> (result: Result<(), MyError>)
    requires
        old(ctx).market.wf(),
    ensures
        match settle_market_outcome(*old(ctx), outcome) {
            Ok(next) => result is Ok && *final(ctx) == next,
            Err(e) => result == Err::<(), MyError>(e) && *final(ctx) == *old(ctx),
        },
        final(ctx).market.wf(),
{
    if outcome != 1 && outcome != 2 && outcome != 3 && outcome != 4 {
        return Err(MyError::InvalidSelection);
    }
    if ctx.market.open {
        return Err(MyError::MarketOpen);
    }
    if ctx.market.settled {
        return Err(MyError::MarketSettled);
    }
    if ctx.market.authority != ctx.authority {
        return Err(MyError::UnauthorizedToSettleMarket);
    }
    ctx.market.settled = true;
    ctx.market.winning_outcome = outcome;
    Ok(())
}

/// How a bet is resolved under a market's outcome: void when the market was
/// voided, a win when the bet's selection is the outcome, a loss otherwise.
pub open spec fn resolution(winning_outcome: u8, bet: Bet) -> BetResult {
    if winning_outcome == 4 {
        BetResult::Void
    } else if bet.selection == winning_outcome {
        BetResult::Win
    } else {
        BetResult::Lose
    }
}

/// What the escrow owes the bettor under a market's outcome: the stake back
/// when the market was voided, the gross return recorded at placement when
/// the bet won, nothing when it lost.
pub open spec fn amount_due(winning_outcome: u8, bet: Bet) -> u64 {
    match resolution(winning_outcome, bet) {
        BetResult::Void => bet.amount,
        BetResult::Win => bet.expected_payout,
        _ => 0,
    }
}

/// Why a bet settlement is rejected, if it is. The checks come in this order:
/// the market is closed; it is settled; the caller is its authority; the bet
/// is not settled yet; the wallet to be paid is the bettor's, by the user
/// recorded in the bet; the escrow covers what is due and the wallet can hold
/// it.
pub open spec fn bet_settlement_rejection(ctx: SettleBet) -> Option<MyError> {
    if ctx.market.open {
        Some(MyError::MarketOpen)
    } else if !ctx.market.settled {
        Some(MyError::MarketNotSettled)
    } else if ctx.market.authority != ctx.authority {
        Some(MyError::UnauthorizedToSettleBet)
    } else if ctx.bet.settled {
        Some(MyError::BetSettled)
    } else if ctx.user.key != ctx.bet.user {
        Some(MyError::UnauthorizedToSettleBet)
    } else if transfer_outcome(
        ctx.market.escrow,
        ctx.user.balance,
        amount_due(ctx.market.winning_outcome, ctx.bet),
    ) is None {
        Some(MyError::TransferFailed)
    } else {
        None
    }
}

/// The records after a bet settlement that was not rejected: the bet carries
/// its result, and what was due has moved from escrow to the bettor. Nothing
/// else in the bet or the market has changed.
pub open spec fn settled_bet(ctx: SettleBet) -> SettleBet {
    let due = amount_due(ctx.market.winning_outcome, ctx.bet);
    SettleBet {
        bet: Bet {
            settled: true,
            result: resolution(ctx.market.winning_outcome, ctx.bet),
            ..ctx.bet
        },
        market: Market { escrow: (ctx.market.escrow - due) as u64, ..ctx.market },
        user: Wallet { balance: (ctx.user.balance + due) as u64, ..ctx.user },
        ..ctx
    }
}

/// What `settle_bet` does to the records it is handed, or why it rejects.
pub open spec fn settle_bet_outcome(ctx: SettleBet) -> Result<SettleBet, MyError> {
    match bet_settlement_rejection(ctx) {
        Some(e) => Err(e),
        None => Ok(settled_bet(ctx)),
    }
}

/// Resolves one bet of a settled market and pays the bettor what is due out
/// of the market's escrow, by the odds recorded in the bet. Only the market's
/// authority may do so, and only once per bet.
///
/// Nothing is paid into a wallet that is not the bettor's: a wallet whose key
/// is not the user recorded in the bet is turned down like a caller without
/// authority. The escrow and the wallet together hold the same before and
/// after, whether the settlement goes through or not.
pub fn settle_bet(ctx: &mut SettleBet) -> (result: Result<(), MyError>)
    requires
        old(ctx).market.wf(),
        old(ctx).bet.wf(),
    ensures
        match settle_bet_outcome(*old(ctx)) {
            Ok(next) => result is Ok && *final(ctx) == next,
            Err(e) => result == Err::<(), MyError>(e) && *final(ctx) == *old(ctx),
        },
        final(ctx).market.wf(),
        final(ctx).bet.wf(),
        final(ctx).user.balance + final(ctx).market.escrow == old(ctx).user.balance + old(
            ctx,
        ).market.escrow,
{
    if ctx.market.open {
        return Err(MyError::MarketOpen);
    }
    if !ctx.market.settled {
        return Err(MyError::MarketNotSettled);
    }
    if ctx.market.authority != ctx.authority {
        return Err(MyError::UnauthorizedToSettleBet);
    }
    if ctx.bet.settled {
        return Err(MyError::BetSettled);
    }
    if ctx.user.key != ctx.bet.user {
        return Err(MyError::UnauthorizedToSettleBet);
    }
    let (outcome, due) = if ctx.market.winning_outcome == 4 {
        (BetResult::Void, ctx.bet.amount)
    } else if ctx.bet.selection == ctx.market.winning_outcome {
        (BetResult::Win, ctx.bet.expected_payout)
    } else {
        (BetResult::Lose, 0)
    };
    if !transfer(&mut ctx.market.escrow, &mut ctx.user.balance, due) {
        return Err(MyError::TransferFailed);
    }
    ctx.bet.result = outcome;
    ctx.bet.settled = true;
    Ok(())
}

/// A bet is settled once: after a settlement that went through, settling the
/// same bet again on the records it left is rejected as already settled,
/// whatever the market's outcome was.
pub proof fn lemma_second_settlement_is_rejected(ctx: SettleBet)
    requires
        settle_bet_outcome(ctx) is Ok,
    ensures
        settle_bet_outcome(settle_bet_outcome(ctx)->Ok_0) == Err::<SettleBet, MyError>(
            MyError::BetSettled,
        ),
{
}

/// A settled bet is never settled again: whatever market, caller and wallet
/// it is presented with, the settlement is rejected, and it is rejected as
/// already settled whenever the market and the caller pass their own checks.
pub proof fn lemma_settled_bet_stays_settled(ctx: SettleBet)
    requires
        ctx.bet.settled,
    ensures
        settle_bet_outcome(ctx) is Err,
        !ctx.market.open && ctx.market.settled && ctx.market.authority == ctx.authority
            ==> settle_bet_outcome(ctx) == Err::<SettleBet, MyError>(MyError::BetSettled),
{
}

/// A settlement moves funds between the escrow and the bettor and nowhere
/// else: the two changes in balance add up to zero.
pub proof fn lemma_settlement_conserves_funds(ctx: SettleBet)
    requires
        settle_bet_outcome(ctx) is Ok,
    ensures
        ({
            let next = settle_bet_outcome(ctx)->Ok_0;
            (next.user.balance - ctx.user.balance) + (next.market.escrow - ctx.market.escrow) == 0
        }),
{
}

/// A settlement leaves the terms of the bet as they were written at
/// placement: it pays by the recorded odds and return, and changes only
/// whether and how the bet is resolved.
pub proof fn lemma_settlement_keeps_the_terms(ctx: SettleBet)
    requires
        settle_bet_outcome(ctx) is Ok,
    ensures
        ({
            let next = settle_bet_outcome(ctx)->Ok_0;
            &&& next.bet == Bet { settled: next.bet.settled, result: next.bet.result, ..ctx.bet }
            &&& next.bet.settled
            &&& next.bet.result != BetResult::Pending
            &&& next.market == Market { escrow: next.market.escrow, ..ctx.market }
        }),
{
}

/// A bet is settled by what was recorded when it was placed: repricing the
/// market before the settlement changes neither whether the settlement goes
/// through, nor how the bet is resolved, nor what the bettor is paid.
pub proof fn lemma_settlement_ignores_repricing(
    ctx: SettleBet,
    caller: Identity,
    outcome_one_odds: u16,
    outcome_two_odds: u16,
    outcome_three_odds: u16,
)
    requires
        update_odds_outcome(
            UpdateOdds { market: ctx.market, authority: caller },
            outcome_one_odds,
            outcome_two_odds,
            outcome_three_odds,
        ) is Ok,
    ensures
        ({
            let repriced = update_odds_outcome(
                UpdateOdds { market: ctx.market, authority: caller },
                outcome_one_odds,
                outcome_two_odds,
                outcome_three_odds,
            )->Ok_0.market;
            let plain = settle_bet_outcome(ctx);
            let late = settle_bet_outcome(SettleBet { market: repriced, ..ctx });
            match plain {
                Ok(next) => {
                    &&& late is Ok
                    &&& late->Ok_0.bet == next.bet
                    &&& late->Ok_0.user == next.user
                    &&& late->Ok_0.market.escrow == next.market.escrow
                },
                Err(e) => late == Err::<SettleBet, MyError>(e),
            }
        }),
{
}

/// Nothing is ever paid into a wallet that is not the bettor's: a settlement
/// handed such a wallet is rejected, whatever the bet would have been due.
pub proof fn lemma_only_the_bettor_is_paid(ctx: SettleBet)
    requires
        ctx.user.key != ctx.bet.user,
    ensures
        settle_bet_outcome(ctx) is Err,
        !ctx.market.open && ctx.market.settled && ctx.market.authority == ctx.authority
            && !ctx.bet.settled ==> settle_bet_outcome(ctx) == Err::<SettleBet, MyError>(
            MyError::UnauthorizedToSettleBet,
        ),
{
}

} // verus!
