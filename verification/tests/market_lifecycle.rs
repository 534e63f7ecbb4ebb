use bet_place::{
    close_market, initialize_market, open_market, settle_market, update_odds, CloseMarket,
    Identity, InitializeMarket, Market, MyError, OpenMarket, SettleMarket, UpdateOdds,
};

fn party(tag: u8) -> Identity {
    Identity { bytes: [tag; 32] }
}

fn blank_market(escrow: u64) -> Market {
    Market {
        authority: Identity { bytes: [0u8; 32] },
        event_id: 0,
        event_name: String::new(),
        market_id: 0,
        market_name: String::new(),
        two_way: false,
        three_way: false,
        line: None,
        outcome_one: String::new(),
        outcome_two: String::new(),
        outcome_three: None,
        outcome_one_odds: 0,
        outcome_two_odds: 0,
        outcome_three_odds: None,
        open: false,
        winning_outcome: 0,
        settled: false,
        max_win: 0,
        last_bet_id: 0,
        escrow,
    }
}

fn create(
    authority: Identity,
    outcomes: u8,
    line: u16,
    odds: (u16, u16, u16),
    max_win: u64,
) -> (InitializeMarket, Result<(), MyError>) {
    let mut ctx = InitializeMarket { market: blank_market(40), authority };
    let result = initialize_market(
        &mut ctx,
        11,
        22,
        String::from("Final"),
        String::from("Match winner"),
        outcomes,
        line,
        String::from("Home"),
        String::from("Away"),
        String::from("Draw"),
        odds.0,
        odds.1,
        odds.2,
        max_win,
    );
    (ctx, result)
}

fn two_way_market() -> Market {
    let (ctx, result) = create(party(1), 2, 0, (1800, 2500, 0), 1_000);
    assert_eq!(result, Ok(()));
    ctx.market
}

fn three_way_market() -> Market {
    let (ctx, result) = create(party(1), 3, 0, (4000, 4000, 4000), 1_000);
    assert_eq!(result, Ok(()));
    ctx.market
}

#[test]
fn creation_writes_every_field_of_a_two_way_market() {
    let (ctx, result) = create(party(1), 2, 0, (1800, 2500, 9999), 5_000);
    assert_eq!(result, Ok(()));
    let expected = Market {
        authority: party(1),
        event_id: 11,
        event_name: String::from("Final"),
        market_id: 22,
        market_name: String::from("Match winner"),
        two_way: true,
        three_way: false,
        line: None,
        outcome_one: String::from("Home"),
        outcome_two: String::from("Away"),
        outcome_three: None,
        outcome_one_odds: 1800,
        outcome_two_odds: 2500,
        outcome_three_odds: None,
        open: false,
        winning_outcome: 0,
        settled: false,
        max_win: 5_000,
        last_bet_id: 0,
        escrow: 40,
    };
    assert_eq!(ctx.market, expected);
    assert_eq!(ctx.authority, party(1));
    assert!(ctx.market.is_well_formed());
}

#[test]
fn creation_writes_every_field_of_a_three_way_market() {
    let (ctx, result) = create(party(9), 3, 25, (4000, 4100, 4200), 77);
    assert_eq!(result, Ok(()));
    let expected = Market {
        authority: party(9),
        event_id: 11,
        event_name: String::from("Final"),
        market_id: 22,
        market_name: String::from("Match winner"),
        two_way: false,
        three_way: true,
        line: Some(25),
        outcome_one: String::from("Home"),
        outcome_two: String::from("Away"),
        outcome_three: Some(String::from("Draw")),
        outcome_one_odds: 4000,
        outcome_two_odds: 4100,
        outcome_three_odds: Some(4200),
        open: false,
        winning_outcome: 0,
        settled: false,
        max_win: 77,
        last_bet_id: 0,
        escrow: 40,
    };
    assert_eq!(ctx.market, expected);
    assert!(ctx.market.is_well_formed());
}

#[test]
fn creation_rejects_every_outcome_count_but_two_and_three() {
    let counts: [u8; 6] = [0, 1, 4, 5, 100, 255];
    for outcomes in counts {
        let (ctx, result) = create(party(1), outcomes, 0, (1800, 2500, 4000), 1_000);
        assert_eq!(result, Err(MyError::InvalidOutcomes));
        assert_eq!(ctx.market, blank_market(40));
    }
    let (_, two) = create(party(1), 2, 0, (1800, 2500, 4000), 1_000);
    assert_eq!(two, Ok(()));
    let (_, three) = create(party(1), 3, 0, (4000, 4000, 4000), 1_000);
    assert_eq!(three, Ok(()));
}

#[test]
fn creation_names_the_outcome_count_before_the_odds() {
    let (_, result) = create(party(1), 4, 0, (1000, 1000, 1000), 1_000);
    assert_eq!(result, Err(MyError::InvalidOutcomes));
}

#[test]
fn creation_rejects_odds_that_pay_no_more_than_the_stake() {
    let (ctx, result) = create(party(1), 2, 0, (1000, 5000, 0), 1_000);
    assert_eq!(result, Err(MyError::InvalidOdds));
    assert_eq!(ctx.market, blank_market(40));
    let (_, result) = create(party(1), 2, 0, (5000, 1000, 0), 1_000);
    assert_eq!(result, Err(MyError::InvalidOdds));
    let (_, result) = create(party(1), 3, 0, (5000, 5000, 1000), 1_000);
    assert_eq!(result, Err(MyError::InvalidOdds));
    let (_, result) = create(party(1), 3, 0, (5000, 5000, 0), 1_000);
    assert_eq!(result, Err(MyError::InvalidOdds));
}

#[test]
fn creation_of_a_two_way_market_does_not_read_the_third_odds() {
    let (ctx, result) = create(party(1), 2, 0, (1800, 2500, 0), 1_000);
    assert_eq!(result, Ok(()));
    assert_eq!(ctx.market.outcome_three_odds, None);
    assert_eq!(ctx.market.outcome_three, None);
    let (_, result) = create(party(1), 2, 0, (1800, 2500, 1000), 1_000);
    assert_eq!(result, Ok(()));
}

#[test]
fn creation_rejects_a_three_way_book_that_reaches_one() {
    let (ctx, result) = create(party(1), 3, 0, (3000, 3000, 3000), 1_000);
    assert_eq!(result, Err(MyError::InvalidOdds));
    assert_eq!(ctx.market, blank_market(40));
    let (_, result) = create(party(1), 3, 0, (3001, 3000, 3000), 1_000);
    assert_eq!(result, Ok(()));
}

#[test]
fn creation_stores_no_line_of_zero() {
    let (ctx, _) = create(party(1), 2, 0, (1800, 2500, 0), 1_000);
    assert_eq!(ctx.market.line, None);
    let (ctx, _) = create(party(1), 2, 1, (1800, 2500, 0), 1_000);
    assert_eq!(ctx.market.line, Some(1));
    let (ctx, _) = create(party(1), 2, u16::MAX, (1800, 2500, 0), 1_000);
    assert_eq!(ctx.market.line, Some(u16::MAX));
}

#[test]
fn creation_takes_the_ceiling_it_is_given() {
    let (ctx, _) = create(party(1), 2, 0, (1800, 2500, 0), 0);
    assert_eq!(ctx.market.max_win, 0);
    let (ctx, _) = create(party(1), 2, 0, (1800, 2500, 0), u64::MAX);
    assert_eq!(ctx.market.max_win, u64::MAX);
}

#[test]
fn reprice_replaces_the_odds_and_nothing_else() {
    let market = two_way_market();
    let mut ctx = UpdateOdds { market: market.clone(), authority: party(1) };
    assert_eq!(update_odds(&mut ctx, 2200, 2100, 7), Ok(()));
    let expected = Market { outcome_one_odds: 2200, outcome_two_odds: 2100, ..market };
    assert_eq!(ctx.market, expected);
    assert_eq!(ctx.market.outcome_three_odds, None);
    assert_eq!(ctx.authority, party(1));
}

#[test]
fn reprice_of_a_three_way_market_replaces_all_three_odds() {
    let market = three_way_market();
    let mut ctx = UpdateOdds { market: market.clone(), authority: party(1) };
    assert_eq!(update_odds(&mut ctx, 5000, 6000, 7000), Ok(()));
    let expected = Market {
        outcome_one_odds: 5000,
        outcome_two_odds: 6000,
        outcome_three_odds: Some(7000),
        ..market
    };
    assert_eq!(ctx.market, expected);
}

#[test]
fn reprice_by_another_party_is_rejected() {
    let market = two_way_market();
    let mut ctx = UpdateOdds { market: market.clone(), authority: party(2) };
    assert_eq!(update_odds(&mut ctx, 2200, 2100, 0), Err(MyError::UnauthorizedToUpdateOdds));
    assert_eq!(ctx.market, market);
}

#[test]
fn reprice_checks_the_odds_as_creation_does() {
    let market = two_way_market();
    let mut ctx = UpdateOdds { market: market.clone(), authority: party(1) };
    assert_eq!(update_odds(&mut ctx, 2000, 2000, 0), Err(MyError::InvalidOdds));
    assert_eq!(update_odds(&mut ctx, 1500, 3000, 0), Err(MyError::InvalidOdds));
    assert_eq!(update_odds(&mut ctx, 1000, 9000, 0), Err(MyError::InvalidOdds));
    assert_eq!(ctx.market, market);
    let market = three_way_market();
    let mut ctx = UpdateOdds { market: market.clone(), authority: party(1) };
    assert_eq!(update_odds(&mut ctx, 3000, 3000, 3000), Err(MyError::InvalidOdds));
    assert_eq!(update_odds(&mut ctx, 4000, 4000, 1000), Err(MyError::InvalidOdds));
    assert_eq!(ctx.market, market);
}

#[test]
fn reprice_names_the_odds_before_the_caller() {
    let market = two_way_market();
    let mut ctx = UpdateOdds { market, authority: party(2) };
    assert_eq!(update_odds(&mut ctx, 2000, 2000, 0), Err(MyError::InvalidOdds));
}

#[test]
fn reprice_goes_through_on_an_open_market() {
    let mut market = two_way_market();
    market.open = true;
    let mut ctx = UpdateOdds { market, authority: party(1) };
    assert_eq!(update_odds(&mut ctx, 2200, 2100, 0), Ok(()));
    assert!(ctx.market.open);
}

#[test]
fn reprice_goes_through_on_a_settled_market() {
    let mut market = two_way_market();
    market.settled = true;
    market.winning_outcome = 2;
    let mut ctx = UpdateOdds { market, authority: party(1) };
    assert_eq!(update_odds(&mut ctx, 2200, 2100, 0), Ok(()));
    assert!(ctx.market.settled);
    assert_eq!(ctx.market.winning_outcome, 2);
}

#[test]
fn opening_sets_open_and_nothing_else() {
    let market = two_way_market();
    let mut ctx = OpenMarket { market: market.clone(), authority: party(1) };
    assert_eq!(open_market(&mut ctx), Ok(()));
    assert_eq!(ctx.market, Market { open: true, ..market });
    assert_eq!(open_market(&mut ctx), Ok(()));
    assert!(ctx.market.open);
}

#[test]
fn closing_clears_open_and_nothing_else() {
    let mut market = two_way_market();
    market.open = true;
    let mut ctx = CloseMarket { market: market.clone(), authority: party(1) };
    assert_eq!(close_market(&mut ctx), Ok(()));
    assert_eq!(ctx.market, Market { open: false, ..market });
    assert_eq!(close_market(&mut ctx), Ok(()));
    assert!(!ctx.market.open);
}

#[test]
fn opening_and_closing_do_not_ask_who_calls() {
    let market = two_way_market();
    let mut ctx = OpenMarket { market, authority: party(200) };
    assert_eq!(open_market(&mut ctx), Ok(()));
    assert!(ctx.market.open);
    let mut ctx = CloseMarket { market: ctx.market, authority: party(201) };
    assert_eq!(close_market(&mut ctx), Ok(()));
    assert!(!ctx.market.open);
}

#[test]
fn well_formedness_check_tells_sound_records_from_others() {
    let market = two_way_market();
    assert!(market.is_well_formed());
    assert!(three_way_market().is_well_formed());
    assert!(!blank_market(0).is_well_formed());
    assert!(!Market { three_way: true, ..market.clone() }.is_well_formed());
    assert!(!Market { two_way: false, ..market.clone() }.is_well_formed());
    assert!(!Market { outcome_three_odds: Some(4000), ..market.clone() }.is_well_formed());
    assert!(!Market { outcome_three: Some(String::from("Draw")), ..market.clone() }.is_well_formed());
    assert!(!Market { line: Some(0), ..market.clone() }.is_well_formed());
    assert!(Market { line: Some(3), ..market.clone() }.is_well_formed());
    assert!(!Market { outcome_one_odds: 1000, ..market.clone() }.is_well_formed());
    assert!(!Market { outcome_one_odds: 1500, outcome_two_odds: 3000, ..market.clone() }.is_well_formed());
    assert!(!Market { open: true, settled: true, winning_outcome: 1, ..market.clone() }.is_well_formed());
    assert!(!Market { settled: true, winning_outcome: 0, ..market.clone() }.is_well_formed());
    assert!(!Market { settled: true, winning_outcome: 5, ..market.clone() }.is_well_formed());
    assert!(!Market { settled: false, winning_outcome: 1, ..market.clone() }.is_well_formed());
    assert!(Market { settled: true, winning_outcome: 4, ..market.clone() }.is_well_formed());
    assert!(Market { open: true, ..market }.is_well_formed());
}

#[test]
fn settled_market_is_not_opened_again() {
    let outcomes: [u8; 4] = [1, 2, 3, 4];
    for outcome in outcomes {
        let mut settling = SettleMarket { market: two_way_market(), authority: party(1) };
        assert_eq!(settle_market(&mut settling, outcome), Ok(()));
        let callers: [u8; 2] = [1, 2];
        for caller in callers {
            let mut ctx = OpenMarket { market: settling.market.clone(), authority: party(caller) };
            let before = ctx.clone();
            assert_eq!(open_market(&mut ctx), Err(MyError::MarketSettled));
            assert_eq!(ctx, before);
            assert!(!ctx.market.open);
            assert!(ctx.market.settled);
            assert!(ctx.market.is_well_formed());
        }
    }
}

#[test]
fn settled_market_can_still_be_closed() {
    let mut settling = SettleMarket { market: two_way_market(), authority: party(1) };
    assert_eq!(settle_market(&mut settling, 1), Ok(()));
    let mut ctx = CloseMarket { market: settling.market.clone(), authority: party(1) };
    assert_eq!(close_market(&mut ctx), Ok(()));
    assert_eq!(ctx.market, settling.market);
}

#[test]
fn market_is_opened_again_after_it_was_closed() {
    let mut opening = OpenMarket { market: two_way_market(), authority: party(1) };
    assert_eq!(open_market(&mut opening), Ok(()));
    let mut closing = CloseMarket { market: opening.market, authority: party(1) };
    assert_eq!(close_market(&mut closing), Ok(()));
    let mut opening = OpenMarket { market: closing.market, authority: party(1) };
    assert_eq!(open_market(&mut opening), Ok(()));
    assert!(opening.market.open);
    assert!(!opening.market.settled);
}
