use portfolio_tax::date::Date;
use portfolio_tax::income::{
    DeleteOutcome, Income, IncomeBody, PerShareError, UpsertError, check_amit, check_credits,
    check_existing, check_per_share, check_upsert, delete_outcome, income_from_body, validate_row,
};
use portfolio_tax::money::Dec;

fn ymd(y: i32, m: u32, d: u32) -> Date {
    Date::ymd(y, m, d)
}

fn dec(v: i64) -> Dec {
    Dec::from_int(v)
}

/// A dividend of nothing, paid on `date_paid`, in AUD to the default account.
fn income(id: i64, listing_id: i64, date_paid: Date) -> Income {
    Income {
        id,
        listing_id,
        date_paid,
        ex_date: None,
        franked_amount: Dec::zero(),
        unfranked_amount: Dec::zero(),
        foreign_source_income: Dec::zero(),
        foreign_tax_paid: Dec::zero(),
        tfn_withholding_tax: Dec::zero(),
        franking_credits: Dec::zero(),
        lic_capital_gain_amount: Dec::zero(),
        conduit_foreign_income: Dec::zero(),
        trust_income: false,
        entitlement_date: None,
        reinvestment_trade_id: None,
        currency: "AUD".to_string(),
        buyback_trade_id: None,
        holding_account_id: 1,
        amount_per_security: None,
        securities_held: None,
        tax_deferred_amount: None,
    }
}

fn dividend_income() -> Income {
    let mut i = income(1, 1, ymd(2024, 3, 15));
    i.ex_date = Some(ymd(2024, 3, 1));
    i.franked_amount = dec(70);
    i.unfranked_amount = dec(30);
    i.franking_credits = dec(30);
    i
}

fn same_value(a: Dec, b: Dec) -> bool {
    a.num_eq(&b)
}

#[test]
fn trust_income_is_assessed_by_present_entitlement_not_payment() {
    let trust = |entitlement| {
        let mut i = income(1, 1, ymd(2024, 7, 15));
        i.trust_income = true;
        i.entitlement_date = entitlement;
        i
    };
    assert_eq!(
        trust(Some(ymd(2024, 6, 30))).assessment_date(),
        ymd(2024, 6, 30),
        "the entitlement date governs the whole row"
    );
    assert_eq!(
        trust(None).assessment_date(),
        ymd(2024, 7, 15),
        "no entitlement date recorded: assessed on payment"
    );
    let mut dividend = income(1, 1, ymd(2024, 7, 15));
    dividend.entitlement_date = Some(ymd(2024, 6, 30));
    assert_eq!(dividend.assessment_date(), ymd(2024, 7, 15));
}

#[test]
fn gross_cash_excludes_credits_and_net_cash_deducts_withholdings() {
    let mut income = income(1, 1, ymd(2024, 3, 31));
    income.franked_amount = dec(70);
    income.unfranked_amount = dec(20);
    income.foreign_source_income = dec(10);
    income.franking_credits = dec(30);
    income.foreign_tax_paid = dec(3);
    income.tfn_withholding_tax = dec(5);
    assert!(same_value(income.gross_cash_income().unwrap(), dec(100)));
    assert!(same_value(income.net_cash_received().unwrap(), dec(92)));
}

#[test]
fn ex_or_pay_date_prefers_the_ex_date_and_is_not_the_assessment_date() {
    let paid = ymd(2024, 7, 15);
    let mut with_ex = income(1, 1, paid);
    with_ex.ex_date = Some(ymd(2024, 6, 20));
    assert_eq!(with_ex.ex_or_pay_date(), ymd(2024, 6, 20));

    let without_ex = income(1, 1, paid);
    assert_eq!(without_ex.ex_or_pay_date(), paid);

    let mut trust = income(1, 1, paid);
    trust.trust_income = true;
    trust.ex_date = Some(ymd(2024, 6, 20));
    trust.entitlement_date = Some(ymd(2024, 6, 30));
    assert_eq!(trust.ex_or_pay_date(), ymd(2024, 6, 20));
    assert_eq!(trust.assessment_date(), ymd(2024, 6, 30));
}

#[test]
fn a_trust_rows_entitlement_date_anchors_the_entitlement_before_the_pay_date() {
    let paid = ymd(2025, 7, 20);
    let mut trust = income(1, 1, paid);
    trust.trust_income = true;
    trust.entitlement_date = Some(ymd(2025, 6, 30));
    assert_eq!(trust.ex_or_pay_date(), ymd(2025, 6, 30));
    assert!(trust.ex_date_recorded());

    let mut both = income(1, 1, paid);
    both.trust_income = true;
    both.ex_date = Some(ymd(2025, 7, 1));
    both.entitlement_date = Some(ymd(2025, 6, 30));
    assert_eq!(both.ex_or_pay_date(), ymd(2025, 7, 1));

    let bare = income(1, 1, paid);
    assert_eq!(bare.ex_or_pay_date(), paid);
    assert!(!bare.ex_date_recorded());

    let mut buyback = income(1, 1, paid);
    buyback.buyback_trade_id = Some(7);
    assert_eq!(buyback.ex_or_pay_date(), paid);
    assert!(buyback.ex_date_recorded());
}

#[test]
fn foreign_only_requires_every_australian_component_to_be_zero() {
    let mut foreign = income(1, 1, ymd(2024, 3, 31));
    foreign.currency = "USD".to_string();
    foreign.foreign_source_income = dec(100);
    foreign.foreign_tax_paid = dec(15);
    assert!(foreign.is_foreign_only());
    assert!(!dividend_income().is_foreign_only());

    let plus = |set: fn(&mut Income)| {
        let mut income = foreign.clone();
        set(&mut income);
        income
    };
    for (field, income) in [
        ("franked_amount", plus(|i| i.franked_amount = Dec::from_int(1))),
        ("unfranked_amount", plus(|i| i.unfranked_amount = Dec::from_int(1))),
        ("franking_credits", plus(|i| i.franking_credits = Dec::from_int(1))),
        ("lic_capital_gain_amount", plus(|i| i.lic_capital_gain_amount = Dec::from_int(1))),
        ("conduit_foreign_income", plus(|i| i.conduit_foreign_income = Dec::from_int(1))),
        ("tfn_withholding_tax", plus(|i| i.tfn_withholding_tax = Dec::from_int(1))),
    ] {
        assert!(!income.is_foreign_only(), "{field} is Australian-side content");
    }

    let empty = income(2, 1, ymd(2024, 3, 31));
    assert!(empty.is_foreign_only());
    let mut deferred = income(3, 1, ymd(2024, 3, 31));
    deferred.trust_income = true;
    deferred.tax_deferred_amount = Some(dec(50));
    assert!(deferred.is_foreign_only());
}

#[test]
fn lic_deduction_is_half_the_advised_amount() {
    let mut i = income(1, 1, ymd(2024, 3, 31));
    i.lic_capital_gain_amount = dec(50);
    assert!(same_value(i.lic_capital_gain_deduction().unwrap(), dec(25)));
    // An odd number of cents halves to the half cent.
    i.lic_capital_gain_amount = Dec::new(101, 2);
    assert!(same_value(i.lic_capital_gain_deduction().unwrap(), Dec::new(505, 3)));
}

#[test]
fn per_share_figures_must_reconcile_to_the_gross_cash() {
    let mut i = dividend_income();
    assert!(matches!(check_per_share(&i), Some(Ok(()))));
    // 0.125 × 800 = 100.00: reconciles.
    i.amount_per_security = Some(Dec::new(125, 3));
    i.securities_held = Some(dec(800));
    assert!(matches!(check_per_share(&i), Some(Ok(()))));
    // 0.12345 × 810 = 99.9945 → 99.99 (half away from zero): does not.
    i.amount_per_security = Some(Dec::new(12345, 5));
    i.securities_held = Some(dec(810));
    match check_per_share(&i) {
        Some(Err(PerShareError::ProductMismatch { product })) => {
            assert!(same_value(product, Dec::new(9999, 2)));
        }
        other => panic!("expected a mismatch, got {other:?}"),
    }
    // 0.12345679 × 810 = 99.9999999 → 100.00 (to the cent): reconciles.
    i.amount_per_security = Some(Dec::new(12345679, 8));
    assert!(matches!(check_per_share(&i), Some(Ok(()))));
    // One figure alone.
    i.securities_held = None;
    assert!(matches!(check_per_share(&i), Some(Err(PerShareError::SuppliedAlone))));
}

#[test]
fn a_negative_figure_is_refused_by_name() {
    let mut i = dividend_income();
    i.foreign_tax_paid = dec(-1);
    assert!(matches!(validate_row(&i), Some(Err(UpsertError::NegativeAmount("foreign_tax_paid")))));
    let mut i = dividend_income();
    i.securities_held = Some(dec(-5));
    assert!(matches!(validate_row(&i), Some(Err(UpsertError::NegativeAmount("securities_held")))));
}

#[test]
fn trust_only_fields_are_refused_on_a_dividend() {
    let mut i = dividend_income();
    i.entitlement_date = Some(ymd(2024, 3, 1));
    assert!(matches!(validate_row(&i), Some(Err(UpsertError::EntitlementDateOnNonTrust))));
    let mut i = dividend_income();
    i.tax_deferred_amount = Some(dec(5));
    assert!(matches!(validate_row(&i), Some(Err(UpsertError::TaxDeferredOnNonTrust))));
    i.trust_income = true;
    i.tax_deferred_amount = Some(dec(-5));
    assert!(matches!(validate_row(&i), Some(Err(UpsertError::TaxDeferredNegative))));
    i.tax_deferred_amount = Some(dec(5));
    assert!(matches!(validate_row(&i), Some(Ok(()))));
}

#[test]
fn a_reinvested_row_freezes_its_cash_and_dates() {
    let mut old = dividend_income();
    old.reinvestment_trade_id = Some(9);
    let mut edit = dividend_income();
    edit.franking_credits = dec(20);
    assert!(matches!(check_existing(&Some(old.clone()), &edit), Ok(())));
    edit.unfranked_amount = dec(31);
    assert!(matches!(
        check_existing(&Some(old.clone()), &edit),
        Err(UpsertError::ReinvestedIncome("unfranked_amount"))
    ));
    edit.currency = "USD".to_string();
    assert!(matches!(
        check_existing(&Some(old.clone()), &edit),
        Err(UpsertError::ReinvestedIncome("currency"))
    ));
    // A scale difference alone is no change of value.
    let mut same = dividend_income();
    same.franked_amount = Dec::new(7000, 2);
    assert!(matches!(check_existing(&Some(old.clone()), &same), Ok(())));
    let mut buyback = dividend_income();
    buyback.buyback_trade_id = Some(3);
    assert!(matches!(check_existing(&Some(buyback), &edit), Err(UpsertError::BuyBackIncome)));
    assert!(matches!(check_existing(&None, &edit), Ok(())));
}

#[test]
fn amit_rows_are_cash_only_trust_rows_from_the_conversion_year() {
    let listing_amit = Some((true, Some(ymd(2023, 7, 1))));
    // FY2023 (paid March 2023): before the conversion, an ordinary dividend is fine.
    let mut early = dividend_income();
    early.date_paid = ymd(2023, 3, 15);
    assert!(matches!(check_amit(listing_amit.clone(), &early), Ok(())));
    // FY2024: an AMIT year.
    let i = dividend_income();
    assert!(matches!(check_amit(listing_amit.clone(), &i), Err(UpsertError::AmitNonTrust)));
    let mut trust = dividend_income();
    trust.trust_income = true;
    assert!(matches!(
        check_amit(listing_amit.clone(), &trust),
        Err(UpsertError::AmitNotionalComponent("franking_credits"))
    ));
    trust.franking_credits = Dec::zero();
    trust.tax_deferred_amount = Some(dec(1));
    assert!(matches!(check_amit(listing_amit.clone(), &trust), Err(UpsertError::AmitTaxDeferred)));
    trust.tax_deferred_amount = None;
    assert!(matches!(check_amit(listing_amit, &trust), Ok(())));
    assert!(matches!(check_amit(None, &i), Ok(())));
}

#[test]
fn credits_need_a_franked_amount_and_cfi_stays_within_unfranked() {
    let mut i = dividend_income();
    i.franked_amount = Dec::zero();
    assert!(matches!(check_credits(&i, None), Err(UpsertError::FrankingCreditWithoutDividend(_))));
    let i = dividend_income();
    match check_credits(&i, Some(dec(30))) {
        Err(UpsertError::FrankingCreditAboveMaximum { credits, franked, ceiling }) => {
            assert!(same_value(credits, dec(30)));
            assert!(same_value(franked, dec(70)));
            assert!(same_value(ceiling, dec(30)));
        }
        other => panic!("expected the ceiling refusal, got {other:?}"),
    }
    let mut i = dividend_income();
    i.conduit_foreign_income = dec(31);
    assert!(matches!(check_credits(&i, None), Err(UpsertError::ConduitExceedsUnfranked { .. })));
    i.conduit_foreign_income = dec(30);
    assert!(matches!(check_credits(&i, None), Ok(())));
}

#[test]
fn the_whole_write_runs_the_checks_in_order() {
    let i = dividend_income();
    assert!(matches!(check_upsert(&i, &None, Some((false, None)), None), Some(Ok(()))));
    // A negative figure wins over every later rule.
    let mut bad = dividend_income();
    bad.franked_amount = dec(-1);
    assert!(matches!(
        check_upsert(&bad, &None, Some((true, None)), Some(dec(1))),
        Some(Err(UpsertError::NegativeAmount("franked_amount")))
    ));
}

#[test]
fn a_linked_row_is_never_deleted() {
    assert_eq!(delete_outcome(None), DeleteOutcome::NotFound);
    assert_eq!(delete_outcome(Some((Some(4), None))), DeleteOutcome::BuyBackIncome);
    assert_eq!(delete_outcome(Some((Some(4), Some(5)))), DeleteOutcome::BuyBackIncome);
    assert_eq!(delete_outcome(Some((None, Some(5)))), DeleteOutcome::ReinvestedIncome);
    assert_eq!(delete_outcome(Some((None, None))), DeleteOutcome::Deleted);
}

#[test]
fn a_body_never_sets_the_provenance_links() {
    let body = IncomeBody {
        listing_id: 3,
        date_paid: ymd(2024, 3, 15),
        ex_date: None,
        franked_amount: dec(70),
        unfranked_amount: dec(30),
        foreign_source_income: Dec::zero(),
        foreign_tax_paid: Dec::zero(),
        tfn_withholding_tax: Dec::zero(),
        franking_credits: dec(30),
        lic_capital_gain_amount: Dec::zero(),
        conduit_foreign_income: Dec::zero(),
        trust_income: false,
        entitlement_date: None,
        currency: "AUD".to_string(),
        holding_account_id: 1,
        amount_per_security: None,
        securities_held: None,
        tax_deferred_amount: None,
    };
    let i = income_from_body(12, body);
    assert_eq!(i.id, 12);
    assert_eq!(i.listing_id, 3);
    assert!(i.reinvestment_trade_id.is_none());
    assert!(i.buyback_trade_id.is_none());
}

#[test]
fn cent_figures_add_and_withhold_exactly() {
    let mut income = income(1, 1, ymd(2024, 3, 31));
    income.franked_amount = Dec::new(123456, 2);
    income.unfranked_amount = Dec::new(5, 1);
    income.foreign_source_income = Dec::new(999, 2);
    income.foreign_tax_paid = Dec::new(150, 2);
    income.tfn_withholding_tax = Dec::new(47, 0);
    let gross = income.gross_cash_income().unwrap();
    assert!(same_value(gross, Dec::new(124505, 2)));
    assert!(gross.scale <= 2);
    let net = income.net_cash_received().unwrap();
    assert!(same_value(net, Dec::new(119655, 2)));
}
