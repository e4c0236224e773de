use portfolio_tax::date::Date;
use portfolio_tax::ess_statement::{
    self as ess, EssStatement, aud_discount_labels, check_currency_rules, discount_labels,
};
use portfolio_tax::ess_vest::{VestError, check_vest};
use portfolio_tax::exchange::{
    Exchange, ExchangeBody, MAX_SETTLEMENT_DAYS, UpsertError as ExchangeError, default_close_time,
    exchange_from_body,
};
use portfolio_tax::holding_account::{
    DEFAULT_HOLDING_ACCOUNT_ID, DeleteOutcome as AccountDelete, HoldingAccountBody, assigned_id,
    default_holding_account_id, delete_outcome as account_delete, holding_account_from_body,
    write_outcome,
};
use portfolio_tax::inheritance::{
    self as inh, CostBaseRule, Inheritance, InheritanceBody, conversion_month,
    inheritance_from_body, needs_ato_rate, total_cost_base,
};
use portfolio_tax::interest_income::{self as interest, InterestIncome};
use portfolio_tax::investment_expense::{self as expense, ExpenseType, InvestmentExpense};
use portfolio_tax::listing::{Listing, SecurityType, UpsertError as ListingError, check_upsert};
use portfolio_tax::listing_rename::{
    RenameBody, RenameError, RenameFacts, RenameTarget, UndoError, plan_rename, plan_undo,
    rename_record,
};
use portfolio_tax::money::Dec;
use portfolio_tax::text::{eq_ignore_ascii_case, is_aud, is_hh_mm};
use portfolio_tax::write_outcome::Upsert;

fn ymd(y: i32, m: u32, d: u32) -> Date {
    Date::ymd(y, m, d)
}

fn dec(v: i64) -> Dec {
    Dec::from_int(v)
}

fn same(a: Dec, b: Dec) -> bool {
    a.num_eq(&b)
}

fn xtest() -> Exchange {
    Exchange {
        mic: "XTES".to_string(),
        name: "Test Exchange".to_string(),
        country: "Testland".to_string(),
        currency: "AUD".to_string(),
        timezone: "UTC".to_string(),
        settlement_days: 2,
        close_time: "16:00".to_string(),
    }
}

#[test]
fn settlement_days_out_of_range_are_refused() {
    let mut ex = xtest();
    ex.settlement_days = -1;
    assert!(matches!(portfolio_tax::exchange::validate(&ex), Err(ExchangeError::NegativeSettlementDays)));
    ex.settlement_days = MAX_SETTLEMENT_DAYS + 1;
    assert!(matches!(
        portfolio_tax::exchange::validate(&ex),
        Err(ExchangeError::SettlementDaysAboveMax { value: 366, max: 365 })
    ));
    ex.settlement_days = MAX_SETTLEMENT_DAYS;
    assert!(matches!(portfolio_tax::exchange::validate(&ex), Ok(())));
}

#[test]
fn malformed_close_times_and_unknown_zones_are_refused() {
    for close_time in ["nonsense", "99:99", "24:00", "16:60", "9:30", "1600", ""] {
        let mut ex = xtest();
        ex.close_time = close_time.to_string();
        match portfolio_tax::exchange::validate(&ex) {
            Err(ExchangeError::MalformedCloseTime(v)) => assert_eq!(v, close_time),
            other => panic!("close_time {close_time:?} must be refused, got {other:?}"),
        }
    }
    for timezone in ["Mars/Olympus", "Not/AZone", ""] {
        let mut ex = xtest();
        ex.timezone = timezone.to_string();
        match portfolio_tax::exchange::validate(&ex) {
            Err(ExchangeError::UnknownTimezone(v)) => assert_eq!(v, timezone),
            other => panic!("timezone {timezone:?} must be refused, got {other:?}"),
        }
    }
    let mut ex = xtest();
    ex.timezone = "Australia/Sydney".to_string();
    ex.close_time = "16:10".to_string();
    assert!(matches!(portfolio_tax::exchange::validate(&ex), Ok(())));
}

#[test]
fn hh_mm_is_two_digits_a_colon_two_digits() {
    assert!(is_hh_mm("00:00"));
    assert!(is_hh_mm("23:59"));
    assert!(!is_hh_mm("9:30"));
    assert!(!is_hh_mm("09:30 "));
    let mut ex = xtest();
    ex.timezone = "America/New_York".to_string();
    assert!(matches!(portfolio_tax::exchange::validate(&ex), Ok(())));
    ex.timezone = "New York".to_string();
    assert!(matches!(
        portfolio_tax::exchange::validate(&ex),
        Err(ExchangeError::UnknownTimezone(_))
    ));
}

#[test]
fn an_exchange_body_defaults_its_close_time() {
    assert_eq!(default_close_time(), "16:00");
    let ex = exchange_from_body(
        "XTES".to_string(),
        ExchangeBody {
            name: "Test".to_string(),
            country: "Testland".to_string(),
            currency: "AUD".to_string(),
            timezone: "UTC".to_string(),
            settlement_days: 2,
            close_time: default_close_time(),
        },
    );
    assert_eq!(ex.mic, "XTES");
    assert_eq!(ex.close_time, "16:00");
}

#[test]
fn currency_text_rules() {
    assert!(is_aud("AUD"));
    assert!(!is_aud("aud"));
    assert!(eq_ignore_ascii_case("aUd", "AUD"));
    assert!(!eq_ignore_ascii_case("AUDX", "AUD"));
}

#[test]
fn the_default_account_is_never_deleted() {
    assert_eq!(default_holding_account_id(), DEFAULT_HOLDING_ACCOUNT_ID);
    assert_eq!(account_delete(false, 2, false), AccountDelete::NotFound);
    assert_eq!(account_delete(true, DEFAULT_HOLDING_ACCOUNT_ID, false), AccountDelete::Referenced);
    assert_eq!(account_delete(true, 2, true), AccountDelete::Referenced);
    assert_eq!(account_delete(true, 2, false), AccountDelete::Deleted);
}

#[test]
fn a_create_takes_the_database_id_and_never_replaces() {
    assert_eq!(assigned_id(None, 17), 17);
    assert_eq!(assigned_id(Some(3), 17), 3);
    assert_eq!(write_outcome(None, true), Upsert::Created);
    assert_eq!(write_outcome(Some(3), true), Upsert::Replaced);
    assert_eq!(write_outcome(Some(3), false), Upsert::Created);
    let a = holding_account_from_body(0, HoldingAccountBody { name: "ICE Employee Plan".to_string() });
    assert_eq!(a.id, 0);
    assert_eq!(a.name, "ICE Employee Plan");
}

fn listing(security_type: SecurityType, mic: Option<&str>) -> Listing {
    Listing {
        id: 1,
        exchange_mic: mic.map(|m| m.to_string()),
        ticker: "VAS".to_string(),
        name: "Vanguard".to_string(),
        isin: None,
        security_type,
        currency: "AUD".to_string(),
        amit: false,
        amit_from: None,
        preference: false,
        price_symbol: None,
    }
}

#[test]
fn listing_pairing_and_amit_dates_are_refused_by_name() {
    let share = listing(SecurityType::Share, Some("XASX"));
    assert_eq!(check_upsert(&share, &None, false, false), Ok(()));
    assert_eq!(
        check_upsert(&listing(SecurityType::Share, None), &None, false, false),
        Err(ListingError::ExchangeRequired)
    );
    assert_eq!(
        check_upsert(&listing(SecurityType::Crypto, Some("XASX")), &None, false, true),
        Err(ListingError::CryptoWithExchange)
    );
    assert_eq!(
        check_upsert(&listing(SecurityType::Crypto, None), &None, false, false),
        Err(ListingError::UnrecognisedDigitalToken)
    );
    let mut amit = share.clone();
    amit.amit_from = Some(ymd(2023, 7, 1));
    assert_eq!(check_upsert(&amit, &None, false, false), Err(ListingError::AmitFromWithoutAmit));
    amit.amit = true;
    assert_eq!(check_upsert(&amit, &None, false, false), Ok(()));
    for bad in [ymd(2023, 6, 30), ymd(2023, 7, 2), ymd(2024, 1, 1)] {
        amit.amit_from = Some(bad);
        assert_eq!(
            check_upsert(&amit, &None, false, false),
            Err(ListingError::AmitFromNotFinancialYearStart(bad))
        );
    }
}

#[test]
fn an_identity_change_with_history_needs_a_rename() {
    let share = listing(SecurityType::Share, Some("XASX"));
    let stored = Some(("VAS".to_string(), Some("XASX".to_string())));
    assert_eq!(check_upsert(&share, &stored, true, false), Ok(()));
    let renamed = Some(("VGS".to_string(), Some("XASX".to_string())));
    assert_eq!(
        check_upsert(&share, &renamed, true, false),
        Err(ListingError::IdentityChangeRequiresRename)
    );
    assert_eq!(check_upsert(&share, &renamed, false, false), Ok(()));
}

fn rename_body(ticker: &str, date: Date) -> RenameBody {
    RenameBody {
        effective_date: date,
        ticker: ticker.to_string(),
        exchange_mic: None,
        name: None,
        price_symbol: None,
        note: None,
    }
}

fn rename_facts() -> RenameFacts {
    let mut current = listing(SecurityType::Share, Some("XASX"));
    current.ticker = "LAAC".to_string();
    current.price_symbol = Some("LAAC.AX".to_string());
    RenameFacts {
        current: Some(current),
        today: ymd(2024, 6, 30),
        latest: Some(ymd(2023, 1, 1)),
        exchange_currency: None,
        token_recognised: false,
        holder: None,
    }
}

#[test]
fn a_rename_records_what_it_overwrote_and_undoes_to_it() {
    let body = rename_body("LAR", ymd(2024, 6, 30));
    let plan = plan_rename(&body, &rename_facts()).unwrap();
    assert_eq!(plan.new_ticker, "LAR");
    assert_eq!(plan.new_exchange_mic.as_deref(), Some("XASX"));
    assert_eq!(plan.new_name, "Vanguard");
    assert_eq!(plan.new_price_symbol.as_deref(), Some("LAAC.AX"));
    let record = rename_record(5, 1, &body, &plan);
    assert_eq!(record.old_ticker, "LAAC");
    let undo = plan_undo(
        &Some(RenameTarget {
            effective_date: record.effective_date,
            old_ticker: record.old_ticker.clone(),
            old_exchange_mic: record.old_exchange_mic.clone(),
            old_name: record.old_name.clone(),
            old_price_symbol: record.old_price_symbol.clone(),
        }),
        Some(record.effective_date),
    )
    .unwrap();
    assert_eq!(undo.ticker, "LAAC");
    assert_eq!(undo.exchange_mic.as_deref(), Some("XASX"));
    assert_eq!(
        undo.name_and_price_symbol,
        Some(("Vanguard".to_string(), Some("LAAC.AX".to_string())))
    );
}

#[test]
fn a_rename_is_refused_in_order() {
    let f = rename_facts();
    assert!(matches!(plan_rename(&rename_body("LAAC", ymd(2024, 6, 1)), &f), Err(RenameError::NoOp)));
    assert!(matches!(
        plan_rename(&rename_body("LAR", ymd(2024, 7, 1)), &f),
        Err(RenameError::FutureDated { .. })
    ));
    assert!(matches!(
        plan_rename(&rename_body("LAR", ymd(2023, 1, 1)), &f),
        Err(RenameError::OutOfOrder { .. })
    ));
    let mut moved = rename_body("LAAC", ymd(2024, 6, 1));
    moved.exchange_mic = Some("XNYS".to_string());
    let mut fx = f.clone();
    fx.exchange_currency = Some("USD".to_string());
    assert!(matches!(plan_rename(&moved, &fx), Err(RenameError::ExchangeCurrencyMismatch { .. })));
    let mut held = f.clone();
    held.holder = Some((9, "Other".to_string()));
    assert!(matches!(
        plan_rename(&rename_body("LAR", ymd(2024, 6, 1)), &held),
        Err(RenameError::TickerCollision { holder_id: 9, .. })
    ));
    let mut none = f.clone();
    none.current = None;
    assert!(matches!(plan_rename(&rename_body("LAR", ymd(2024, 6, 1)), &none), Err(RenameError::ListingNotFound)));
    let mut crypto = f.clone();
    crypto.current.as_mut().unwrap().security_type = SecurityType::Crypto;
    crypto.current.as_mut().unwrap().exchange_mic = None;
    assert!(matches!(
        plan_rename(&rename_body("BTC", ymd(2024, 6, 1)), &crypto),
        Err(RenameError::UnrecognisedDigitalToken)
    ));
    let mut onto = rename_body("BTC", ymd(2024, 6, 1));
    onto.exchange_mic = Some("XASX".to_string());
    assert!(matches!(plan_rename(&onto, &crypto), Err(RenameError::CryptoWithExchange)));
}

#[test]
fn only_the_newest_rename_is_undone() {
    let target = RenameTarget {
        effective_date: ymd(2023, 1, 1),
        old_ticker: "A".to_string(),
        old_exchange_mic: None,
        old_name: None,
        old_price_symbol: None,
    };
    assert_eq!(plan_undo(&None, None).unwrap_err(), UndoError::RenameNotFound);
    assert_eq!(
        plan_undo(&Some(target.clone()), Some(ymd(2024, 1, 1))).unwrap_err(),
        UndoError::NotNewest
    );
    let undo = plan_undo(&Some(target), Some(ymd(2023, 1, 1))).unwrap();
    assert_eq!(undo.ticker, "A");
    assert!(undo.name_and_price_symbol.is_none());
}

fn statement() -> EssStatement {
    EssStatement {
        id: 1,
        listing_id: 1,
        holding_account_id: 1,
        taxing_point_date: ymd(2024, 9, 1),
        quantity: dec(10),
        market_value_per_share: dec(50),
        taxed_upfront_eligible: Dec::zero(),
        taxed_upfront_not_eligible: Dec::zero(),
        deferral_discount: dec(500),
        pre_2009_cessation_discount: Dec::zero(),
        foreign_source_discount: dec(100),
        tfn_withholding: Dec::zero(),
        currency: "USD".to_string(),
        fx_rate: None,
        aud_taxed_upfront_eligible: None,
        aud_taxed_upfront_not_eligible: None,
        aud_deferral_discount: None,
        aud_pre_2009_cessation_discount: None,
        aud_foreign_source_discount: None,
        vest_trade_id: None,
    }
}

#[test]
fn an_ess_statement_must_be_self_consistent() {
    let s = statement();
    assert!(matches!(ess::validate(&s), Some(Ok(()))));
    assert!(same(discount_labels(&s).unwrap(), dec(500)));
    // A nil-priced RSU: discount equal to the market value is accepted.
    let mut over = statement();
    over.deferral_discount = dec(501);
    assert!(matches!(
        ess::validate(&over),
        Some(Err(ess::UpsertError::DiscountExceedsMarketValue { .. }))
    ));
    let mut memo = statement();
    memo.foreign_source_discount = dec(501);
    assert!(matches!(
        ess::validate(&memo),
        Some(Err(ess::UpsertError::ForeignSourceExceedsDiscounts { label: "foreign_source_discount", .. }))
    ));
    let mut pre = statement();
    pre.taxing_point_date = ymd(1985, 9, 19);
    assert!(matches!(ess::validate(&pre), Some(Err(ess::UpsertError::PreCgtTaxingPoint))));
    let mut neg = statement();
    neg.aud_deferral_discount = Some(dec(-1));
    assert!(matches!(
        ess::validate(&neg),
        Some(Err(ess::UpsertError::NegativeAmount("aud_deferral_discount")))
    ));
}

#[test]
fn the_aud_total_is_known_only_when_every_label_is_pinned() {
    let mut s = statement();
    assert!(matches!(aud_discount_labels(&s), Some(None)));
    s.aud_deferral_discount = Some(dec(700));
    assert!(same(aud_discount_labels(&s).unwrap().unwrap(), dec(700)));
    s.aud_foreign_source_discount = Some(dec(701));
    assert!(matches!(
        ess::validate(&s),
        Some(Err(ess::UpsertError::ForeignSourceExceedsDiscounts { label: "aud_foreign_source_discount", .. }))
    ));
}

#[test]
fn ess_currency_rules() {
    let mut s = statement();
    s.currency = "AUD".to_string();
    s.aud_deferral_discount = Some(dec(1));
    assert!(matches!(check_currency_rules(&s), Err(ess::UpsertError::AudOverrideOnAudStatement)));
    let mut s = statement();
    s.fx_rate = Some(Dec::zero());
    assert!(matches!(check_currency_rules(&s), Err(ess::UpsertError::FxRateNotPositive)));
    s.currency = "AUD".to_string();
    s.fx_rate = Some(dec(1));
    assert!(matches!(check_currency_rules(&s), Err(ess::UpsertError::FxRateOnAudStatement)));
    let s = statement();
    assert!(matches!(
        ess::check_upsert(&s, &Some("AUD".to_string()), &None),
        Some(Err(ess::UpsertError::CurrencyNotListings { .. }))
    ));
    let mut vested = statement();
    vested.quantity = dec(11);
    assert!(matches!(ess::check_upsert(&s, &Some("USD".to_string()), &Some(vested)), Some(Err(ess::UpsertError::Vested))));
    let mut labels_only = statement();
    labels_only.deferral_discount = dec(400);
    assert!(matches!(ess::check_upsert(&s, &None, &Some(labels_only)), Some(Ok(()))));
    assert_eq!(ess::delete_outcome(true, Some(4), true), ess::DeleteOutcome::VestDrawnOn);
    assert_eq!(ess::delete_outcome(true, Some(4), false), ess::DeleteOutcome::Deleted);
    assert_eq!(ess::delete_outcome(false, None, false), ess::DeleteOutcome::NotFound);
}

#[test]
fn a_vest_needs_a_parcel() {
    assert_eq!(check_vest(None, false), Err(VestError::StatementNotFound));
    assert_eq!(check_vest(Some((dec(10), dec(50))), true), Err(VestError::AlreadyVested));
    assert_eq!(check_vest(Some((Dec::zero(), dec(50))), false), Err(VestError::NothingToVest));
    assert_eq!(check_vest(Some((dec(10), dec(50))), false), Ok(()));
}

fn inheritance() -> Inheritance {
    Inheritance {
        id: 1,
        listing_id: 1,
        holding_account_id: 1,
        quantity: dec(100),
        date_of_death: ymd(2020, 5, 1),
        cost_base_rule: CostBaseRule::DeceasedCostBase,
        cost_base: dec(5000),
        lpr_expenditure: Dec::zero(),
        lpr_expenditure_date: None,
        deceased_acquisition_date: Some(ymd(1999, 3, 4)),
        currency: "AUD".to_string(),
        fx_rate: dec(1),
    }
}

#[test]
fn inheritance_rules() {
    assert!(matches!(inh::validate(&inheritance()), Ok(())));
    let mut i = inheritance();
    i.deceased_acquisition_date = None;
    assert!(matches!(inh::validate(&i), Err(inh::UpsertError::RuleAcquisitionDateMismatch)));
    let mut i = inheritance();
    i.deceased_acquisition_date = Some(ymd(1980, 1, 1));
    assert!(matches!(inh::validate(&i), Err(inh::UpsertError::DeceasedAcquisitionPreCgt)));
    let mut i = inheritance();
    i.deceased_acquisition_date = Some(ymd(2021, 1, 1));
    assert!(matches!(inh::validate(&i), Err(inh::UpsertError::DeceasedAcquisitionAfterDeath)));
    let mut i = inheritance();
    i.date_of_death = ymd(1984, 1, 1);
    assert!(matches!(inh::validate(&i), Err(inh::UpsertError::DeathPreCgt)));
    let mut i = inheritance();
    i.lpr_expenditure = dec(300);
    assert!(matches!(inh::validate(&i), Err(inh::UpsertError::LprExpenditureDateMismatch)));
    i.lpr_expenditure_date = Some(ymd(2020, 4, 1));
    assert!(matches!(inh::validate(&i), Err(inh::UpsertError::LprExpenditureBeforeDeath)));
    i.lpr_expenditure_date = Some(ymd(2020, 6, 1));
    assert!(matches!(inh::validate(&i), Ok(())));
    assert!(same(total_cost_base(&i).unwrap(), dec(5300)));
    i.currency = "usd".to_string();
    assert!(matches!(inh::validate(&i), Err(inh::UpsertError::LprExpenditureOnForeignParcel)));
    i.currency = "aud".to_string();
    assert!(matches!(inh::validate(&i), Ok(())));
    let mut i = inheritance();
    i.quantity = Dec::zero();
    assert!(matches!(inh::validate(&i), Err(inh::UpsertError::QuantityNotPositive)));
    let mut i = inheritance();
    i.cost_base = dec(-1);
    assert!(matches!(inh::validate(&i), Err(inh::UpsertError::NegativeAmount)));
    let mut i = inheritance();
    i.fx_rate = Dec::zero();
    assert!(matches!(inh::validate(&i), Err(inh::UpsertError::FxRateNotPositive)));
}

#[test]
fn a_foreign_inheritance_needs_a_rate_for_its_month() {
    let mut i = inheritance();
    i.currency = "USD".to_string();
    assert!(needs_ato_rate(&i));
    assert_eq!(conversion_month(&i), "1999-03");
    match inh::check_upsert(&i, &None, false, false) {
        Err(inh::UpsertError::MissingFxRate { currency, month }) => {
            assert_eq!(currency, "USD");
            assert_eq!(month, "1999-03");
        }
        other => panic!("expected MissingFxRate, got {other:?}"),
    }
    assert!(matches!(inh::check_upsert(&i, &None, true, false), Ok(())));
    i.fx_rate = Dec::new(65, 2);
    assert!(!needs_ato_rate(&i));
    assert!(matches!(inh::check_upsert(&i, &None, false, true), Err(inh::UpsertError::ParcelDrawnOn)));
    assert!(matches!(
        inh::check_upsert(&i, &Some("AUD".to_string()), false, false),
        Err(inh::UpsertError::CurrencyNotListings { .. })
    ));
    let mut mv = inheritance();
    mv.cost_base_rule = CostBaseRule::MarketValueAtDeath;
    mv.deceased_acquisition_date = None;
    assert_eq!(conversion_month(&mv), "2020-05");
    assert_eq!(inh::delete_outcome(true, Some(3), true), inh::DeleteOutcome::ParcelDrawnOn);
    assert_eq!(inh::delete_outcome(true, None, true), inh::DeleteOutcome::Deleted);
}

#[test]
fn an_inheritance_body_defaults_lpr_and_rate() {
    let i = inheritance_from_body(
        4,
        InheritanceBody {
            listing_id: 1,
            holding_account_id: 1,
            quantity: dec(10),
            date_of_death: ymd(2020, 5, 1),
            cost_base_rule: CostBaseRule::MarketValueAtDeath,
            cost_base: dec(10),
            lpr_expenditure: None,
            lpr_expenditure_date: None,
            deceased_acquisition_date: None,
            currency: "AUD".to_string(),
            fx_rate: None,
        },
    );
    assert!(same(i.lpr_expenditure, Dec::zero()));
    assert!(same(i.fx_rate, dec(1)));
}

fn interest_row(foreign: bool) -> InterestIncome {
    InterestIncome {
        id: 1,
        date_paid: ymd(2024, 3, 31),
        amount: dec(100),
        tfn_withholding_tax: Dec::zero(),
        foreign_source: foreign,
        foreign_tax_paid: Dec::zero(),
        currency: "AUD".to_string(),
        source: None,
        holding_account_id: None,
    }
}

#[test]
fn interest_withholding_follows_its_source() {
    assert!(matches!(interest::validate(&interest_row(false)), Ok(())));
    let mut i = interest_row(false);
    i.amount = dec(-1);
    assert!(matches!(interest::validate(&i), Err(interest::UpsertError::NegativeAmount("amount"))));
    let mut i = interest_row(false);
    i.foreign_tax_paid = dec(5);
    assert!(matches!(interest::validate(&i), Err(interest::UpsertError::ForeignTaxOnAustralianSource)));
    let mut i = interest_row(true);
    i.tfn_withholding_tax = dec(5);
    assert!(matches!(interest::validate(&i), Err(interest::UpsertError::TfnWithholdingOnForeignSource)));
}

fn expense_row() -> InvestmentExpense {
    InvestmentExpense {
        id: 1,
        date_incurred: ymd(2024, 3, 31),
        expense_type: ExpenseType::LoanInterest,
        amount: dec(60),
        gross_amount: Some(dec(100)),
        deductible_percentage: Some(dec(60)),
        currency: "AUD".to_string(),
        description: None,
        listing_id: None,
        holding_account_id: None,
    }
}

#[test]
fn apportionment_must_reconcile_to_the_cent() {
    assert!(matches!(expense::validate(&expense_row()), Some(Ok(()))));
    let mut e = expense_row();
    e.deductible_percentage = Some(Dec::new(33333, 3));
    e.amount = Dec::new(3333, 2);
    assert!(matches!(expense::validate(&e), Some(Ok(()))));
    e.amount = dec(33);
    match expense::validate(&e) {
        Some(Err(expense::UpsertError::ApportionmentMismatch { product })) => {
            assert!(same(product, Dec::new(3333, 2)))
        }
        other => panic!("expected a mismatch, got {other:?}"),
    }
    let mut e = expense_row();
    e.deductible_percentage = Some(dec(101));
    assert!(matches!(expense::validate(&e), Some(Err(expense::UpsertError::PercentageOutOfRange(_)))));
    let mut e = expense_row();
    e.gross_amount = Some(dec(-1));
    assert!(matches!(expense::validate(&e), Some(Err(expense::UpsertError::NegativeAmount("gross_amount")))));
    let mut e = expense_row();
    e.gross_amount = None;
    e.amount = dec(7);
    assert!(matches!(expense::validate(&e), Some(Ok(()))));
}
