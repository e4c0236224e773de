use portfolio_tax::date::Date;
use portfolio_tax::ess_statement::EssStatement;
use portfolio_tax::ess_vest::{VestError, check_vest, vest_buy};
use portfolio_tax::inheritance::{
    CostBaseRule, Inheritance, UpsertError, check_convertible, check_listing_currency, parcel_buy,
};
use portfolio_tax::money::Dec;
use portfolio_tax::trade::{TradeType, created_trade_id};

fn ymd(y: i32, m: u32, d: u32) -> Date {
    Date::ymd(y, m, d)
}

fn dec(v: i64) -> Dec {
    Dec::from_int(v)
}

fn same(a: Dec, b: Dec) -> bool {
    a.num_eq(&b)
}

fn statement(quantity: Dec, price: Dec, currency: &str) -> EssStatement {
    EssStatement {
        id: 1,
        listing_id: 1,
        holding_account_id: 1,
        taxing_point_date: ymd(2024, 9, 1),
        quantity,
        market_value_per_share: price,
        taxed_upfront_eligible: Dec::zero(),
        taxed_upfront_not_eligible: Dec::zero(),
        deferral_discount: dec(600),
        pre_2009_cessation_discount: Dec::zero(),
        foreign_source_discount: Dec::zero(),
        tfn_withholding: Dec::zero(),
        currency: currency.to_string(),
        fx_rate: None,
        aud_taxed_upfront_eligible: None,
        aud_taxed_upfront_not_eligible: None,
        aud_deferral_discount: None,
        aud_pre_2009_cessation_discount: None,
        aud_foreign_source_discount: None,
        vest_trade_id: None,
    }
}

#[test]
fn vest_creates_the_cost_base_reset_buy() {
    let s = statement(dec(100), dec(6), "AUD");
    assert_eq!(check_vest(Some((s.quantity, s.market_value_per_share)), false), Ok(()));
    let trade = vest_buy(&s);
    assert_eq!(trade.trade_type, TradeType::Buy);
    assert_eq!(trade.listing_id, 1);
    assert!(same(trade.quantity, dec(100)));
    assert!(same(trade.average_price, dec(6)));
    assert_eq!(trade.date, ymd(2024, 9, 1));
    assert_eq!(trade.settlement_date, ymd(2024, 9, 1));
    assert!(same(trade.brokerage, Dec::zero()));
    assert_eq!(trade.deemed_acquisition_date, None);
    assert_eq!(trade.ess_statement_id, Some(1));
    assert_eq!(trade.holding_account_id, 1);
}

#[test]
fn vest_keeps_the_statements_currency() {
    let trade = vest_buy(&statement(dec(100), dec(6), "USD"));
    assert_eq!(trade.currency, "USD");
    assert_eq!(trade.brokerage_currency, "USD");
    assert!(same(trade.fx_rate, dec(1)));
}

#[test]
fn zero_quantity_is_rejected() {
    let s = statement(Dec::zero(), dec(6), "AUD");
    assert_eq!(
        check_vest(Some((s.quantity, s.market_value_per_share)), false),
        Err(VestError::NothingToVest)
    );
}

fn post_cgt(id: i64) -> Inheritance {
    Inheritance {
        id,
        listing_id: 1,
        holding_account_id: 1,
        quantity: dec(100),
        date_of_death: ymd(2025, 1, 10),
        cost_base_rule: CostBaseRule::DeceasedCostBase,
        cost_base: dec(3000),
        lpr_expenditure: dec(200),
        lpr_expenditure_date: Some(ymd(2025, 3, 1)),
        deceased_acquisition_date: Some(ymd(2020, 2, 1)),
        currency: "AUD".to_string(),
        fx_rate: dec(1),
    }
}

#[test]
fn post_cgt_inheritance_creates_the_parcel_buy() {
    let buy = parcel_buy(&post_cgt(1)).unwrap();
    assert_eq!(buy.trade_type, TradeType::Buy);
    assert_eq!(buy.date, ymd(2025, 1, 10));
    assert_eq!(buy.settlement_date, ymd(2025, 1, 10));
    assert_eq!(buy.listing_id, 1);
    assert!(same(buy.quantity, dec(100)));
    assert!(same(buy.average_price, Dec::zero()));
    assert!(same(buy.brokerage, dec(3200)));
    assert!(same(buy.gst_on_brokerage, Dec::zero()));
    assert_eq!(buy.deemed_acquisition_date, Some(ymd(2020, 2, 1)));
    assert_eq!(buy.inheritance_id, Some(1));
    assert_eq!(buy.holding_account_id, 1);
}

#[test]
fn pre_cgt_inheritance_clock_runs_from_death() {
    let mut inh = post_cgt(1);
    inh.cost_base_rule = CostBaseRule::MarketValueAtDeath;
    inh.cost_base = dec(5000);
    inh.lpr_expenditure = Dec::zero();
    inh.lpr_expenditure_date = None;
    inh.deceased_acquisition_date = None;
    let buy = parcel_buy(&inh).unwrap();
    assert_eq!(buy.date, ymd(2025, 1, 10));
    assert_eq!(buy.deemed_acquisition_date, None);
    assert!(same(buy.brokerage, dec(5000)));
}

fn post_cgt_usd(id: i64) -> Inheritance {
    let mut inh = post_cgt(id);
    inh.currency = "USD".to_string();
    inh.lpr_expenditure = Dec::zero();
    inh.lpr_expenditure_date = None;
    inh
}

#[test]
fn foreign_currency_inheritance_carries_currency_and_fx() {
    let mut inh = post_cgt_usd(1);
    inh.fx_rate = Dec::new(15, 1);
    let buy = parcel_buy(&inh).unwrap();
    assert_eq!(buy.currency, "USD");
    assert_eq!(buy.brokerage_currency, "USD");
    assert!(same(buy.fx_rate, Dec::new(15, 1)));
}

#[test]
fn edit_updates_the_linked_buy_in_place() {
    let before_id = created_trade_id(None, 7);
    assert_eq!(before_id, 7);
    let mut edited = post_cgt(1);
    edited.quantity = dec(150);
    edited.cost_base = dec(4000);
    let after = parcel_buy(&edited).unwrap();
    assert_eq!(created_trade_id(Some(before_id), 8), before_id);
    assert!(same(after.quantity, dec(150)));
    assert!(same(after.brokerage, dec(4200)));
}

#[test]
fn a_non_aud_inheritance_with_no_rate_is_refused_not_costed_at_parity() {
    // The deceased acquired 2020-02 and died 2025-01: the month is the
    // acquisition's.
    let usd = post_cgt_usd(1);
    match check_convertible(&usd, false) {
        Err(UpsertError::MissingFxRate { currency, month }) => {
            assert_eq!(currency, "USD");
            assert_eq!(month, "2020-02");
        }
        other => panic!("expected MissingFxRate, got {other:?}"),
    }
    // Either half of the pair is enough: the taxpayer's own rate…
    let mut stated = post_cgt_usd(1);
    stated.fx_rate = Dec::new(75, 2);
    assert!(matches!(check_convertible(&stated, false), Ok(())));
    // …or the acquisition month's ATO rate.
    assert!(matches!(check_convertible(&usd, true), Ok(())));
    // An AUD inheritance needs neither.
    assert!(matches!(check_convertible(&post_cgt(1), false), Ok(())));
}

#[test]
fn an_inheritance_in_another_currency_than_its_listings_is_refused() {
    let mut mismatched = post_cgt_usd(1);
    mismatched.fx_rate = Dec::new(65, 2);
    match check_listing_currency(&mismatched, &Some("AUD".to_string())) {
        Err(UpsertError::CurrencyNotListings { inheritance, listing }) => {
            assert_eq!(inheritance, "USD");
            assert_eq!(listing, "AUD");
        }
        other => panic!("expected CurrencyNotListings, got {other:?}"),
    }
    // The matching pair is unaffected, either way round.
    assert!(matches!(check_listing_currency(&post_cgt(1), &Some("AUD".to_string())), Ok(())));
    assert!(matches!(check_listing_currency(&mismatched, &Some("USD".to_string())), Ok(())));
    assert!(matches!(check_listing_currency(&mismatched, &None), Ok(())));
}

#[test]
fn a_year_beyond_four_digits_is_written_with_its_sign() {
    let mut inh = post_cgt(7);
    inh.currency = "USD".to_string();
    inh.lpr_expenditure = Dec::zero();
    inh.lpr_expenditure_date = None;
    inh.deceased_acquisition_date = Some(ymd(10000, 2, 1));
    inh.date_of_death = ymd(10001, 1, 1);
    assert_eq!(portfolio_tax::inheritance::conversion_month(&inh), "+10000-02");
    inh.deceased_acquisition_date = Some(ymd(-5, 2, 1));
    assert_eq!(portfolio_tax::inheritance::conversion_month(&inh), "-0005-02");
}
