//! Bet admission: a stake is checked against an open market, numbered,
//! recorded, and its funds are taken into the market's escrow.

use crate::bet::{Bet, BetResult};
use crate::error::MyError;
use crate::market::Market;
use crate::odds::{gross_return, payout};
use crate::party::{transfer, transfer_outcome, Wallet};
use vstd::prelude::*;

verus! {

/// What an admission works on: the record to fill with the new bet, the
/// market, and the bettor, who is the calling party.
#[derive(Clone, Debug, PartialEq, Eq)]
pub struct PlaceBet {
    pub bet: Bet,
    pub market: Market,
    pub authority: Wallet,
}

/// Why an admission is rejected, if it is. The checks come in this order: the
/// selection is 1, 2 or 3; the market is open; the market has the selected
/// outcome; the gross return stays within the market's ceiling; the bet's
/// number follows the market's last; the bettor covers the stake and the
/// escrow can hold it.
pub open spec fn admission_rejection(ctx: PlaceBet, bet_id: u32, selection: u8, amount: u64) -> Option<
    MyError,
> {
    if !(1 <= selection <= 3) {
        Some(MyError::InvalidSelection)
    } else if !ctx.market.open {
        Some(MyError::MarketClosed)
    } else if selection == 3 && !ctx.market.three_way {
        Some(MyError::InvalidSelection)
    } else if gross_return(amount as int, ctx.market.odds_of(selection) as int)
        > ctx.market.max_win {
        Some(MyError::StakeTooHigh)
    } else if bet_id != ctx.market.last_bet_id + 1 {
        Some(MyError::InvalidBetId)
    } else if transfer_outcome(ctx.authority.balance, ctx.market.escrow, amount) is None {
        Some(MyError::TransferFailed)
    } else {
        None
    }
}

/// The records after an admission that was not rejected: the bet is written
/// at the odds the market shows now, the market's counter stands at the bet's
/// number, and the stake has moved from the bettor into escrow.
pub open spec fn admitted(
    ctx: PlaceBet,
    event_id: u32,
    market_id: u32,
    bet_id: u32,
    selection: u8,
    amount: u64,
) -> PlaceBet {
    let odds = ctx.market.odds_of(selection);
    PlaceBet {
        bet: Bet {
            bet_id,
            authority: ctx.market.authority,
            user: ctx.authority.key,
            market_id,
            event_id,
            selection,
            amount,
            settled: false,
            result: BetResult::Pending,
            odds,
            expected_payout: gross_return(amount as int, odds as int) as u64,
        },
        market: Market {
            last_bet_id: bet_id,
            escrow: (ctx.market.escrow + amount) as u64,
            ..ctx.market
        },
        authority: Wallet { balance: (ctx.authority.balance - amount) as u64, ..ctx.authority },
    }
}

/// What `place_bet` does to the records it is handed, or why it rejects.
pub open spec fn place_bet_outcome(
    ctx: PlaceBet,
    event_id: u32,
    market_id: u32,
    bet_id: u32,
    selection: u8,
    amount: u64,
) -> Result<PlaceBet, MyError> {
    match admission_rejection(ctx, bet_id, selection, amount) {
        Some(e) => Err(e),
        None => Ok(admitted(ctx, event_id, market_id, bet_id, selection, amount)),
    }
}

/// Places a stake of `amount` on `selection` for the calling party.
///
/// `event_id` and `market_id` are recorded in the bet as given. A rejected
/// admission writes no bet, leaves the market's counter where it was and
/// moves no funds.
pub fn place_bet(
    ctx: &mut PlaceBet,
    event_id: u32,
    market_id: u32,
    bet_id: u32,
    selection: u8,
    amount: u64,
) -> (result: Result<(), MyError>)
    requires
        old(ctx).market.wf(),
    ensures
        match place_bet_outcome(*old(ctx), event_id, market_id, bet_id, selection, amount) {
            Ok(next) => result is Ok && *final(ctx) == next,
            Err(e) => result == Err::<(), MyError>(e) && *final(ctx) == *old(ctx),
        },
        final(ctx).market.wf(),
        result is Ok ==> final(ctx).bet.wf(),
        result is Ok ==> gross_return(amount as int, final(ctx).bet.odds as int) <= old(
            ctx,
        ).market.max_win,
        result is Ok ==> final(ctx).market.last_bet_id == bet_id,
        result is Err ==> final(ctx).market.last_bet_id == old(ctx).market.last_bet_id,
        result is Ok ==> bet_id == old(ctx).market.last_bet_id + 1,
        final(ctx).authority.balance + final(ctx).market.escrow == old(ctx).authority.balance
            + old(ctx).market.escrow,
{
    if selection != 1 && selection != 2 && selection != 3 {
        return Err(MyError::InvalidSelection);
    }
    if !ctx.market.open {
        return Err(MyError::MarketClosed);
    }
    if selection == 3 && !ctx.market.three_way {
        return Err(MyError::InvalidSelection);
    }
    let odds: u16 = if selection == 1 {
        ctx.market.outcome_one_odds
    } else if selection == 2 {
        ctx.market.outcome_two_odds
    } else {
        match ctx.market.outcome_three_odds {
            Some(o) => o,
            None => 0,
        }
    };
    let gross: u128 = payout(amount, odds);
    if gross > ctx.market.max_win as u128 {
        return Err(MyError::StakeTooHigh);
    }
    if ctx.market.last_bet_id == u32::MAX || bet_id != ctx.market.last_bet_id + 1 {
        return Err(MyError::InvalidBetId);
    }
    if !transfer(&mut ctx.authority.balance, &mut ctx.market.escrow, amount) {
        return Err(MyError::TransferFailed);
    }
    ctx.market.last_bet_id = bet_id;
    ctx.bet = Bet {
        bet_id,
        authority: ctx.market.authority,
        user: ctx.authority.key,
        market_id,
        event_id,
        selection,
        amount,
        settled: false,
        result: BetResult::Pending,
        odds,
        expected_payout: gross as u64,
    };
    Ok(())
}

} // verus!
