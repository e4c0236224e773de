use portfolio_tax::date::Date;
use portfolio_tax::drp_reinvestment::{
    ChainTrade, EnrolmentPeriod, ReinvestBody, ReinvestError, ReinvestFacts, allotment,
    check_body, check_distribution, check_unreinvest, covering_period, first_later_date,
    drp_trade, has_later, latest_prior, plan_reinvestment,
};
use portfolio_tax::trade::TradeType;
use portfolio_tax::income::Income;
use portfolio_tax::money::Dec;

fn ymd(y: i32, m: u32, d: u32) -> Date {
    Date::ymd(y, m, d)
}

fn dec(v: i64) -> Dec {
    Dec::from_int(v)
}

fn same(a: Dec, b: Dec) -> bool {
    a.num_eq(&b)
}

fn distribution(cash: i64) -> Income {
    Income {
        id: 1,
        listing_id: 1,
        date_paid: ymd(2024, 3, 15),
        ex_date: Some(ymd(2024, 3, 1)),
        franked_amount: dec(cash),
        unfranked_amount: Dec::zero(),
        foreign_source_income: Dec::zero(),
        foreign_tax_paid: Dec::zero(),
        tfn_withholding_tax: Dec::zero(),
        franking_credits: Dec::zero(),
        lic_capital_gain_amount: Dec::zero(),
        conduit_foreign_income: Dec::zero(),
        trust_income: false,
        entitlement_date: None,
        reinvestment_trade_id: None,
        currency: "AUD".to_string(),
        buyback_trade_id: None,
        holding_account_id: 1,
        amount_per_security: None,
        securities_held: None,
        tax_deferred_amount: None,
    }
}

fn body(price: Dec, units: Option<Dec>) -> ReinvestBody {
    ReinvestBody { reinvestment_price: price, units, fx_rate: None, date: None }
}

fn facts(income: Income) -> ReinvestFacts {
    ReinvestFacts {
        income: Some(income),
        is_distribution: true,
        periods: vec![EnrolmentPeriod { start: ymd(2020, 1, 1), end: None }],
        account_name: "Default".to_string(),
        ticker: "VAS".to_string(),
        listing_currency: "AUD".to_string(),
        back_dated: None,
        period_trades: vec![],
        residual_brought_forward: Dec::zero(),
    }
}

#[test]
fn carry_forward_buys_whole_shares_and_carries_leftover() {
    // $100 cash + $30 notional franking credits (must be ignored), price $9.
    let mut income = distribution(0);
    income.franked_amount = Dec::zero();
    income.unfranked_amount = dec(100);
    income.franking_credits = dec(30);
    let f = facts(income);
    let b = body(dec(9), None);
    let plan = plan_reinvestment(&b, &f).unwrap().unwrap();
    let drp = drp_trade(&b, &f, &plan);
    // floor(100 / 9) = 11 shares, cost 99, leftover 1.
    assert_eq!(drp.trade.trade_type, TradeType::Drp);
    assert!(same(drp.trade.quantity, dec(11)));
    assert!(same(drp.trade.average_price, dec(9)));
    assert!(same(drp.residual_brought_forward, Dec::zero()));
    assert!(same(drp.leftover, dec(1)));
}

#[test]
fn the_default_allotment_buys_whole_units_and_leaves_the_rest() {
    // $100 at $30 a unit: three units, $10 left over.
    let (q, left) = allotment(dec(100), dec(30), None).unwrap().unwrap();
    assert!(same(q, dec(3)));
    assert_eq!(q.scale, 0);
    assert!(same(left, dec(10)));
}

#[test]
fn the_drp_trade_is_dated_and_settled_on_the_reinvestment_date() {
    let f = facts(distribution(100));
    let mut b = body(dec(30), None);
    b.date = Some(ymd(2024, 3, 20));
    b.fx_rate = Some(Dec::new(65, 2));
    let plan = plan_reinvestment(&b, &f).unwrap().unwrap();
    let drp = drp_trade(&b, &f, &plan);
    assert_eq!(drp.trade.date, ymd(2024, 3, 20));
    assert_eq!(drp.trade.settlement_date, ymd(2024, 3, 20));
    assert_eq!(drp.trade.listing_id, 1);
    assert_eq!(drp.trade.holding_account_id, 1);
    assert_eq!(drp.trade.currency, "AUD");
    assert_eq!(drp.trade.brokerage_currency, "AUD");
    assert!(same(drp.trade.brokerage, Dec::zero()));
    assert!(same(drp.trade.gst_on_brokerage, Dec::zero()));
    assert!(same(drp.trade.fx_rate, Dec::new(65, 2)));
    assert!(drp.trade.deemed_acquisition_date.is_none());
    assert!(drp.trade.ess_statement_id.is_none());
    assert!(drp.trade.inheritance_id.is_none());
    // Without a stated date the trade takes the payment date.
    let b = body(dec(30), None);
    let plan = plan_reinvestment(&b, &f).unwrap().unwrap();
    assert_eq!(drp_trade(&b, &f, &plan).trade.date, ymd(2024, 3, 15));
}

#[test]
fn residual_brought_forward_joins_the_cash() {
    let mut f = facts(distribution(100));
    f.residual_brought_forward = dec(11);
    let plan = plan_reinvestment(&body(dec(30), None), &f).unwrap().unwrap();
    assert!(same(plan.available, dec(111)));
    assert!(same(plan.quantity, dec(3)));
    assert!(same(plan.leftover, dec(21)));
    assert_eq!(plan.date, ymd(2024, 3, 15));
    assert_eq!(plan.period, 0);
    assert!(same(plan.fx_rate, dec(1)));
}

#[test]
fn stated_whole_units_carry_the_unspent_cash() {
    // 3 stated units at $30 out of $100: within one unit's price, $10 left.
    let (q, left) = allotment(dec(100), dec(30), Some(dec(3))).unwrap().unwrap();
    assert!(same(q, dec(3)));
    assert!(same(left, dec(10)));
}

#[test]
fn stated_fractional_units_leave_nothing_over() {
    // 3.333 units at $30 = $99.99 of $100: within 0.001 × 30, residual zero.
    let (q, left) = allotment(dec(100), dec(30), Some(Dec::new(3333, 3))).unwrap().unwrap();
    assert!(same(q, Dec::new(3333, 3)));
    assert!(same(left, Dec::zero()));
}

#[test]
fn stated_units_that_do_not_spend_the_cash_are_refused() {
    // 2 units at $30 = $60 of $100: $40 apart, more than one unit's price.
    match allotment(dec(100), dec(30), Some(dec(2))) {
        Some(Err(ReinvestError::UnitsCashMismatch { cost, available })) => {
            assert!(same(cost, dec(60)));
            assert!(same(available, dec(100)));
        }
        other => panic!("expected a mismatch, got {other:?}"),
    }
    // 4 units = $120: an over-spend by less than a unit's price is cash never had.
    assert!(matches!(
        allotment(dec(100), dec(30), Some(dec(4))),
        Some(Ok(_))
    ));
}

#[test]
fn price_and_units_must_be_positive() {
    assert!(matches!(check_body(&body(Dec::zero(), None)), Err(ReinvestError::NonPositivePrice)));
    assert!(matches!(
        check_body(&body(dec(1), Some(dec(-1)))),
        Err(ReinvestError::NonPositiveUnits)
    ));
    assert!(matches!(check_body(&body(dec(1), Some(dec(1)))), Ok(())));
}

#[test]
fn only_an_unreinvested_distribution_is_reinvested() {
    assert!(matches!(check_distribution(&None, true), Err(ReinvestError::IncomeNotFound)));
    let mut i = distribution(100);
    i.reinvestment_trade_id = Some(4);
    assert!(matches!(check_distribution(&Some(i), true), Err(ReinvestError::AlreadyReinvested)));
    assert!(matches!(
        check_distribution(&Some(distribution(100)), false),
        Err(ReinvestError::NotADistribution)
    ));
}

#[test]
fn enrolment_is_judged_at_the_ex_date_in_a_half_open_period() {
    let periods = vec![
        EnrolmentPeriod { start: ymd(2020, 1, 1), end: Some(ymd(2024, 3, 1)) },
        EnrolmentPeriod { start: ymd(2024, 3, 1), end: None },
    ];
    assert_eq!(covering_period(&periods, &ymd(2024, 2, 29)), Some(0));
    assert_eq!(covering_period(&periods, &ymd(2024, 3, 1)), Some(1));
    assert_eq!(covering_period(&periods, &ymd(2019, 12, 31)), None);

    let mut f = facts(distribution(100));
    f.periods = vec![EnrolmentPeriod { start: ymd(2024, 3, 2), end: None }];
    match plan_reinvestment(&body(dec(30), None), &f) {
        Some(Err(ReinvestError::NotEnrolled { account, ticker, date })) => {
            assert_eq!(account, "Default");
            assert_eq!(ticker, "VAS");
            assert_eq!(date, ymd(2024, 3, 1));
        }
        other => panic!("expected NotEnrolled, got {other:?}"),
    }
}

#[test]
fn a_distribution_in_another_currency_is_refused() {
    let mut f = facts(distribution(100));
    f.listing_currency = "USD".to_string();
    assert!(matches!(
        plan_reinvestment(&body(dec(30), None), &f),
        Some(Err(ReinvestError::CurrencyMismatch { .. }))
    ));
}

#[test]
fn reinvestments_join_the_chain_at_its_tail() {
    let trades = vec![
        ChainTrade { date: ymd(2024, 6, 1), id: 8 },
        ChainTrade { date: ymd(2024, 4, 1), id: 9 },
        ChainTrade { date: ymd(2024, 3, 15), id: 7 },
    ];
    assert_eq!(first_later_date(&trades, &ymd(2024, 3, 15)), Some(ymd(2024, 4, 1)));
    assert_eq!(first_later_date(&trades, &ymd(2024, 6, 1)), None);
    assert_eq!(latest_prior(&trades, &ymd(2024, 5, 1)), Some(1));
    assert_eq!(latest_prior(&trades, &ymd(2024, 1, 1)), None);

    let mut f = facts(distribution(100));
    f.period_trades = trades;
    match plan_reinvestment(&body(dec(30), None), &f) {
        Some(Err(ReinvestError::LaterReinvestmentExists { date, later })) => {
            assert_eq!(date, ymd(2024, 3, 15));
            assert_eq!(later, ymd(2024, 4, 1));
        }
        other => panic!("expected LaterReinvestmentExists, got {other:?}"),
    }
}

#[test]
fn a_same_day_trade_is_not_later() {
    let trades = vec![ChainTrade { date: ymd(2024, 3, 15), id: 7 }];
    let f = {
        let mut f = facts(distribution(100));
        f.period_trades = trades;
        f
    };
    assert!(matches!(plan_reinvestment(&body(dec(30), None), &f), Some(Ok(_))));
}

#[test]
fn undo_is_last_in_first_out() {
    let chain = vec![
        ChainTrade { date: ymd(2024, 3, 15), id: 7 },
        ChainTrade { date: ymd(2024, 3, 15), id: 9 },
    ];
    assert!(has_later(&chain, &ChainTrade { date: ymd(2024, 3, 15), id: 7 }));
    assert!(!has_later(&chain, &ChainTrade { date: ymd(2024, 3, 15), id: 9 }));

    assert!(matches!(check_unreinvest(None, false, false), Err(ReinvestError::IncomeNotFound)));
    assert!(matches!(check_unreinvest(Some(None), false, false), Err(ReinvestError::NotReinvested)));
    assert!(matches!(
        check_unreinvest(Some(Some(7)), true, false),
        Err(ReinvestError::ReinvestmentConsumed)
    ));
    assert!(matches!(
        check_unreinvest(Some(Some(7)), false, true),
        Err(ReinvestError::ReinvestmentNotChainTail)
    ));
    assert_eq!(check_unreinvest(Some(Some(7)), false, false).unwrap(), 7);
}

#[test]
fn an_unrepresentable_cost_base_is_refused() {
    let huge = Dec::new(79228162514264337593543950335, 0);
    assert!(matches!(
        allotment(dec(100), huge, Some(huge)),
        Some(Err(ReinvestError::UnrepresentableCostBase))
    ));
}

#[test]
fn undoing_a_reinvestment_reopens_the_distribution() {
    let mut reinvested = distribution(100);
    reinvested.reinvestment_trade_id = Some(7);
    assert!(matches!(
        check_distribution(&Some(reinvested.clone()), true),
        Err(ReinvestError::AlreadyReinvested)
    ));
    let trade = check_unreinvest(Some(reinvested.reinvestment_trade_id), false, false).unwrap();
    assert_eq!(trade, 7);
    reinvested.reinvestment_trade_id = None;
    assert!(matches!(check_distribution(&Some(reinvested), true), Ok(())));
}

#[test]
fn a_stated_allotment_a_whole_unit_step_apart_is_refused() {
    // 4 units at $20 spend $80 of $100: exactly one unit's price apart.
    assert!(matches!(
        allotment(dec(100), dec(20), Some(dec(4))),
        Some(Err(ReinvestError::UnitsCashMismatch { .. }))
    ));
    // 3 units at $25.50 spend $76.50: $23.50 over, less than a unit's price.
    let (q, left) = allotment(dec(100), Dec::new(2550, 2), Some(dec(3))).unwrap().unwrap();
    assert!(same(q, dec(3)));
    assert!(same(left, Dec::new(2350, 2)));
}

#[test]
fn a_finely_stated_allotment_is_checked_exactly() {
    // 3.33333333 units at $30 = $99.9999999 of $100: within 0.00000001 × 30.
    let (q, left) = allotment(dec(100), dec(30), Some(Dec::new(333333333, 8))).unwrap().unwrap();
    assert!(same(q, Dec::new(333333333, 8)));
    assert!(same(left, Dec::zero()));
    // 3.3333332 units = $99.999996: $0.000004 short, more than 0.0000001 × 30.
    assert!(matches!(
        allotment(dec(100), dec(30), Some(Dec::new(33333332, 7))),
        Some(Err(ReinvestError::UnitsCashMismatch { .. }))
    ));
}

#[test]
fn the_default_allotment_leaves_less_than_one_units_price() {
    // $101.30 at $4: 25 units, $1.30 left over.
    let (q, left) = allotment(Dec::new(10130, 2), dec(4), None).unwrap().unwrap();
    assert!(same(q, dec(25)));
    assert!(same(left, Dec::new(130, 2)));
    // $100 at $5: 20 units, nothing left.
    let (q, left) = allotment(dec(100), dec(5), None).unwrap().unwrap();
    assert!(same(q, dec(20)));
    assert!(same(left, Dec::zero()));
}

#[test]
fn whole_share_allotment_at_prices_that_do_not_divide_the_cash() {
    // $100 at $7: 14 units, $2 left over.
    let (q, left) = allotment(dec(100), dec(7), None).unwrap().unwrap();
    assert!(same(q, dec(14)));
    assert!(same(left, dec(2)));
    // $100 at $9.50: 10 units, $5 left over.
    let (q, left) = allotment(dec(100), Dec::new(950, 2), None).unwrap().unwrap();
    assert!(same(q, dec(10)));
    assert!(same(left, dec(5)));
    // $101.30 at $3: 33 units, $2.30 left over.
    let (q, left) = allotment(Dec::new(10130, 2), dec(3), None).unwrap().unwrap();
    assert!(same(q, dec(33)));
    assert!(same(left, Dec::new(230, 2)));
}

#[test]
fn only_a_dividend_row_is_a_distribution() {
    assert!(portfolio_tax::drp_reinvestment::is_distribution_type("Dividend"));
    assert!(!portfolio_tax::drp_reinvestment::is_distribution_type("Employment"));
    assert!(!portfolio_tax::drp_reinvestment::is_distribution_type("dividend"));
}
