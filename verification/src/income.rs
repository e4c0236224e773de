//! Income rows: dividends and trust distributions, what they are worth, when
//! they are assessed and entitled, and the rules an income write must satisfy.

use vstd::prelude::*;
pub use crate::text::default_currency;
use crate::date::{Date, spec_tax_year_for, tax_year_for};
use crate::listing::{amit_in_tax_year, spec_amit_in_tax_year};
use crate::money::{
    Dec,
    checked_add,
    checked_div,
    checked_mul,
    checked_sub,
    cents_figure,
    dec_checked_add,
    dec_checked_div,
    dec_checked_mul,
    dec_checked_sub,
    lemma_product_value,
    lemma_round_cents_value,
    lemma_cents_figures_fit,
    lemma_cents_halves_exactly,
    lemma_cents_result,
    lemma_cents_widen,
    opt_wf,
    product_fits,
    product_units,
    round_cents,
    round_cents_units,
    spec_round_cents,
};
use crate::text::text_eq;

verus! {

/// One distribution: a dividend, or a trust distribution when `trust_income`.
#[derive(Clone, Debug)]
pub struct Income {
    pub id: i64,
    pub listing_id: i64,
    pub date_paid: Date,
    pub ex_date: Option<Date>,
    pub franked_amount: Dec,
    pub unfranked_amount: Dec,
    pub foreign_source_income: Dec,
    pub foreign_tax_paid: Dec,
    pub tfn_withholding_tax: Dec,
    pub franking_credits: Dec,
    /// The LIC capital gain amount the company advised (not the deduction).
    pub lic_capital_gain_amount: Dec,
    /// The conduit-foreign-income part of `unfranked_amount` (a memo within
    /// it, never on top of it).
    pub conduit_foreign_income: Dec,
    pub trust_income: bool,
    /// Trust rows only: the date of present entitlement.
    pub entitlement_date: Option<Date>,
    /// The DRP trade this distribution was reinvested into.
    pub reinvestment_trade_id: Option<i64>,
    pub currency: String,
    /// The buy-back Sell this row is the dividend component of.
    pub buyback_trade_id: Option<i64>,
    pub holding_account_id: i64,
    pub amount_per_security: Option<Dec>,
    pub securities_held: Option<Dec>,
    /// Non-AMIT trust rows only: the statement's tax-deferred amount.
    pub tax_deferred_amount: Option<Dec>,
}

/// An income row as a write request states it (the id comes from the path;
/// the provenance links are never client-settable).
#[derive(Clone, Debug)]
pub struct IncomeBody {
    pub listing_id: i64,
    pub date_paid: Date,
    pub ex_date: Option<Date>,
    pub franked_amount: Dec,
    pub unfranked_amount: Dec,
    pub foreign_source_income: Dec,
    pub foreign_tax_paid: Dec,
    pub tfn_withholding_tax: Dec,
    pub franking_credits: Dec,
    pub lic_capital_gain_amount: Dec,
    pub conduit_foreign_income: Dec,
    pub trust_income: bool,
    pub entitlement_date: Option<Date>,
    pub currency: String,
    pub holding_account_id: i64,
    pub amount_per_security: Option<Dec>,
    pub securities_held: Option<Dec>,
    pub tax_deferred_amount: Option<Dec>,
}

/// An optional date is a calendar date when present.
pub open spec fn opt_date_wf(d: Option<Date>) -> bool {
    d matches Some(x) ==> x.wf()
}

impl Income {
    /// Every figure is a representable decimal and every date a calendar date.
    pub open spec fn wf(&self) -> bool {
        &&& self.franked_amount.wf()
        &&& self.unfranked_amount.wf()
        &&& self.foreign_source_income.wf()
        &&& self.foreign_tax_paid.wf()
        &&& self.tfn_withholding_tax.wf()
        &&& self.franking_credits.wf()
        &&& self.lic_capital_gain_amount.wf()
        &&& self.conduit_foreign_income.wf()
        &&& opt_wf(self.amount_per_security)
        &&& opt_wf(self.securities_held)
        &&& opt_wf(self.tax_deferred_amount)
        &&& self.date_paid.wf()
        &&& opt_date_wf(self.ex_date)
        &&& opt_date_wf(self.entitlement_date)
    }

    /// No Australian-sourced component: franked, unfranked, franking credits,
    /// LIC capital gain, conduit foreign income and TFN withholding all zero.
    pub open spec fn spec_is_foreign_only(&self) -> bool {
        &&& self.franked_amount.units() == 0
        &&& self.unfranked_amount.units() == 0
        &&& self.franking_credits.units() == 0
        &&& self.lic_capital_gain_amount.units() == 0
        &&& self.conduit_foreign_income.units() == 0
        &&& self.tfn_withholding_tax.units() == 0
    }

    /// True when the distribution carries no Australian-sourced component — the
    /// "nothing to declare at Item 11 / Item 13" test. A row with no amounts at
    /// all counts as foreign-only, and `tax_deferred_amount` is ignored.
    pub fn is_foreign_only(&self) -> (b: bool)
        requires
            self.wf(),
        ensures
            b == self.spec_is_foreign_only(),
    {
        self.franked_amount.is_zero() && self.unfranked_amount.is_zero()
            && self.franking_credits.is_zero() && self.lic_capital_gain_amount.is_zero()
            && self.conduit_foreign_income.is_zero() && self.tfn_withholding_tax.is_zero()
    }

    /// The LIC capital gain deduction: half the advised amount (the individual
    /// rate), `lic_capital_gain_amount / 2`, as `rust_decimal` divides it.
    pub fn lic_capital_gain_deduction(&self) -> (r: Option<Dec>)
        requires
            self.wf(),
        ensures
            r == dec_checked_div(self.lic_capital_gain_amount, Dec { mantissa: 2, scale: 0 }),
            cents_figure(self.lic_capital_gain_amount, 1) ==> (r matches Some(x) && 2 * x.units()
                == self.lic_capital_gain_amount.units()),
    {
        proof {
            if cents_figure(self.lic_capital_gain_amount, 1) {
                lemma_cents_halves_exactly(self.lic_capital_gain_amount);
            }
        }
        checked_div(self.lic_capital_gain_amount, Dec::from_int(2))
    }

    /// The date the row is assessed on.
    pub open spec fn spec_assessment_date(&self) -> Date {
        match self.entitlement_date {
            Some(d) if self.trust_income => d,
            _ => self.date_paid,
        }
    }

    /// The date the distribution is assessed on: a trust row's entitlement
    /// date when it records one (present entitlement), otherwise the payment
    /// date.
    pub fn assessment_date(&self) -> (d: Date)
        ensures
            d == self.spec_assessment_date(),
    {
        match self.entitlement_date {
            Some(d) if self.trust_income => d,
            _ => self.date_paid,
        }
    }

    /// A trust row's entitlement date, `None` on any other row.
    pub open spec fn spec_trust_entitlement_date(&self) -> Option<Date> {
        if self.trust_income {
            self.entitlement_date
        } else {
            None
        }
    }

    fn trust_entitlement_date(&self) -> (d: Option<Date>)
        ensures
            d == self.spec_trust_entitlement_date(),
    {
        if self.trust_income {
            self.entitlement_date
        } else {
            None
        }
    }

    /// The date the entitlement was fixed.
    pub open spec fn spec_ex_or_pay_date(&self) -> Date {
        match self.ex_date {
            Some(d) => d,
            None => match self.spec_trust_entitlement_date() {
                Some(d) => d,
                None => self.date_paid,
            },
        }
    }

    /// The date the distribution went ex: the recorded ex date, else a trust
    /// row's entitlement date, else the payment date.
    pub fn ex_or_pay_date(&self) -> (d: Date)
        ensures
            d == self.spec_ex_or_pay_date(),
    {
        match self.ex_date {
            Some(d) => d,
            None => match self.trust_entitlement_date() {
                Some(d) => d,
                None => self.date_paid,
            },
        }
    }

    /// Whether the statement fixed the entitlement date.
    pub open spec fn spec_ex_date_recorded(&self) -> bool {
        self.ex_date is Some || self.spec_trust_entitlement_date() is Some
            || self.buyback_trade_id is Some
    }

    /// Whether [`Self::ex_or_pay_date`] is a date the statement fixed (a
    /// recorded ex date or a trust row's entitlement date) rather than the
    /// payment-date fallback; a buy-back's dividend component counts as fixed.
    pub fn ex_date_recorded(&self) -> (b: bool)
        ensures
            b == self.spec_ex_date_recorded(),
    {
        self.ex_date.is_some() || self.trust_entitlement_date().is_some()
            || self.buyback_trade_id.is_some()
    }

    /// `franked + unfranked + foreign_source_income`, as `rust_decimal` adds
    /// them (`None` where it reports overflow).
    pub open spec fn spec_gross_cash_income(&self) -> Option<Dec> {
        match dec_checked_add(self.franked_amount, self.unfranked_amount) {
            Some(s) => dec_checked_add(s, self.foreign_source_income),
            None => None,
        }
    }

    /// The distribution's gross cash components in its own currency:
    /// `franked_amount + unfranked_amount + foreign_source_income`. Franking
    /// credits are notional and the withholdings come out of this gross, so
    /// neither is in it. `None` where the sum overflows the decimal range.
    pub fn gross_cash_income(&self) -> (r: Option<Dec>)
        requires
            self.wf(),
        ensures
            r == self.spec_gross_cash_income(),
            r matches Some(x) ==> x.wf(),
            self.cash_figures_in_cents() ==> (r matches Some(x) && x.units()
                == self.franked_amount.units() + self.unfranked_amount.units()
                + self.foreign_source_income.units() && cents_figure(x, 3)),
    {
        proof {
            if self.cash_figures_in_cents() {
                lemma_cents_figures_fit(self.franked_amount, self.unfranked_amount, 1);
            }
        }
        match checked_add(self.franked_amount, self.unfranked_amount) {
            Some(s) => {
                proof {
                    if self.cash_figures_in_cents() {
                        lemma_cents_result(s, 2);
                        lemma_cents_widen(self.foreign_source_income, 1, 2);
                        lemma_cents_figures_fit(s, self.foreign_source_income, 2);
                    }
                }
                let g = checked_add(s, self.foreign_source_income);
                proof {
                    if self.cash_figures_in_cents() {
                        lemma_cents_result(g.unwrap(), 3);
                    }
                }
                g
            },
            None => None,
        }
    }

    /// Every cash figure of the row (the three gross components and the two
    /// withholdings) has at most two decimals and a magnitude of at most
    /// 10^18: the rows a statement produces.
    pub open spec fn cash_figures_in_cents(&self) -> bool {
        &&& cents_figure(self.franked_amount, 1)
        &&& cents_figure(self.unfranked_amount, 1)
        &&& cents_figure(self.foreign_source_income, 1)
        &&& cents_figure(self.foreign_tax_paid, 1)
        &&& cents_figure(self.tfn_withholding_tax, 1)
    }

    /// Gross cash less foreign tax paid less TFN withholding, as `rust_decimal`
    /// computes it.
    pub open spec fn spec_net_cash_received(&self) -> Option<Dec> {
        match self.spec_gross_cash_income() {
            Some(g) => match dec_checked_sub(g, self.foreign_tax_paid) {
                Some(n) => dec_checked_sub(n, self.tfn_withholding_tax),
                None => None,
            },
            None => None,
        }
    }

    /// Cash actually received: [`Self::gross_cash_income`] less the foreign
    /// tax and TFN amounts withheld at source. What a DRP has to reinvest.
    /// `None` where the arithmetic overflows the decimal range.
    pub fn net_cash_received(&self) -> (r: Option<Dec>)
        requires
            self.wf(),
        ensures
            r == self.spec_net_cash_received(),
            r matches Some(x) ==> x.wf(),
            self.cash_figures_in_cents() ==> (r matches Some(x) && x.units()
                == self.franked_amount.units() + self.unfranked_amount.units()
                + self.foreign_source_income.units() - self.foreign_tax_paid.units()
                - self.tfn_withholding_tax.units() && cents_figure(x, 5)),
    {
        match self.gross_cash_income() {
            Some(g) => {
                proof {
                    if self.cash_figures_in_cents() {
                        lemma_cents_widen(self.foreign_tax_paid, 1, 3);
                        lemma_cents_figures_fit(g, self.foreign_tax_paid, 3);
                    }
                }
                match checked_sub(g, self.foreign_tax_paid) {
                    Some(n) => {
                        proof {
                            if self.cash_figures_in_cents() {
                                lemma_cents_result(n, 4);
                                lemma_cents_widen(self.tfn_withholding_tax, 1, 4);
                                lemma_cents_figures_fit(n, self.tfn_withholding_tax, 4);
                            }
                        }
                        let net = checked_sub(n, self.tfn_withholding_tax);
                        proof {
                            if self.cash_figures_in_cents() {
                                lemma_cents_result(net.unwrap(), 5);
                            }
                        }
                        net
                    },
                    None => None,
                }
            },
            None => None,
        }
    }
}

/// When the statement did not fix the entitlement, the entitlement date is the
/// payment date.
pub proof fn lemma_unrecorded_ex_date_is_the_payment_date(i: Income)
    requires
        !i.spec_ex_date_recorded(),
    ensures
        i.spec_ex_or_pay_date() == i.date_paid,
{
}

/// A dividend (a non-trust row) is assessed and, without an ex date,
/// entitled on its payment date.
pub proof fn lemma_dividend_dates(i: Income)
    requires
        !i.trust_income,
    ensures
        i.spec_assessment_date() == i.date_paid,
        i.ex_date is None ==> i.spec_ex_or_pay_date() == i.date_paid,
{
}

/// Why the per-share statement figures failed to reconcile.
#[derive(Clone, Debug)]
pub enum PerShareError {
    /// Exactly one of `amount_per_security` / `securities_held` was supplied.
    SuppliedAlone,
    /// `amount_per_security × securities_held`, cent-rounded, is not the gross
    /// cash components (carries the product).
    ProductMismatch { product: Dec },
}

/// The per-share cross-check's verdict, `None` where the arithmetic overflows.
pub open spec fn spec_check_per_share(income: Income) -> Option<Result<(), PerShareError>> {
    match (income.amount_per_security, income.securities_held) {
        (None, None) => Some(Ok(())),
        (Some(aps), Some(held)) => match dec_checked_mul(aps, held) {
            None => None,
            Some(p) => match income.spec_gross_cash_income() {
                None => None,
                Some(g) => {
                    let product = spec_round_cents(p);
                    if product.units() == g.units() {
                        Some(Ok(()))
                    } else {
                        Some(Err(PerShareError::ProductMismatch { product }))
                    }
                },
            },
        },
        _ => Some(Err(PerShareError::SuppliedAlone)),
    }
}

/// Cross-check the optional per-share statement figures against the entered
/// amounts: `amount_per_security × securities_held`, rounded to the cent (half
/// away from zero), must equal the gross cash components by value. Neither
/// supplied: nothing to check. Exactly one supplied: refused. `None` where the
/// product or the gross overflows the decimal range. For figures whose product
/// needs no rounding ([`product_fits`]) on a row of cents figures, the product
/// and the gross are exact and the check is the one on their values.
pub fn check_per_share(income: &Income) -> (r: Option<Result<(), PerShareError>>)
    requires
        income.wf(),
    ensures
        r == spec_check_per_share(*income),
        income.amount_per_security matches Some(aps) ==> (income.securities_held matches Some(
            held,
        ) ==> (product_fits(aps, held) && income.cash_figures_in_cents() ==> (r matches Some(
            res,
        ) && (res is Ok) == (round_cents_units(product_units(aps, held))
            == income.franked_amount.units() + income.unfranked_amount.units()
            + income.foreign_source_income.units())))),
{
    match (income.amount_per_security, income.securities_held) {
        (None, None) => Some(Ok(())),
        (Some(aps), Some(held)) => {
            match checked_mul(aps, held) {
                None => None,
                Some(p) => match income.gross_cash_income() {
                    None => None,
                    Some(g) => {
                        proof {
                            lemma_round_cents_value(p);
                            if product_fits(aps, held) {
                                lemma_product_value(aps, held, p);
                            }
                        }
                        let product = round_cents(p);
                        if product.num_eq(&g) {
                            Some(Ok(()))
                        } else {
                            Some(Err(PerShareError::ProductMismatch { product }))
                        }
                    },
                },
            }
        },
        _ => Some(Err(PerShareError::SuppliedAlone)),
    }
}

/// Why an income write was refused.
#[derive(Clone, Debug)]
pub enum UpsertError {
    /// The stored row is a buy-back dividend component: not editable here.
    BuyBackIncome,
    /// The stored row is reinvested and the edit moves a figure the
    /// reinvestment rests on (carries the field name).
    ReinvestedIncome(&'static str),
    /// The per-share cross-check failed.
    PerShare(PerShareError),
    /// An `entitlement_date` on a non-trust row.
    EntitlementDateOnNonTrust,
    /// A `tax_deferred_amount` on a non-trust row.
    TaxDeferredOnNonTrust,
    /// A negative `tax_deferred_amount`.
    TaxDeferredNegative,
    /// The listing is an AMIT in the row's year but the row is not trust
    /// income.
    AmitNonTrust,
    /// A non-zero notional component on an AMIT row (carries the field).
    AmitNotionalComponent(&'static str),
    /// A `tax_deferred_amount` on an AMIT row.
    AmitTaxDeferred,
    /// A negative money figure (carries the field name).
    NegativeAmount(&'static str),
    /// `conduit_foreign_income` exceeds `unfranked_amount`.
    ConduitExceedsUnfranked { cfi: Dec, unfranked: Dec },
    /// A franking credit on a non-trust row with no franked amount.
    FrankingCreditWithoutDividend(Dec),
    /// A franking credit above the maximum the franked amount allows.
    FrankingCreditAboveMaximum { credits: Dec, franked: Dec, ceiling: Dec },
}

/// The first negative money figure on the row, in the order they are checked.
pub open spec fn spec_first_negative(i: Income) -> Option<&'static str> {
    if i.franked_amount.units() < 0 {
        Some("franked_amount")
    } else if i.unfranked_amount.units() < 0 {
        Some("unfranked_amount")
    } else if i.foreign_source_income.units() < 0 {
        Some("foreign_source_income")
    } else if i.foreign_tax_paid.units() < 0 {
        Some("foreign_tax_paid")
    } else if i.tfn_withholding_tax.units() < 0 {
        Some("tfn_withholding_tax")
    } else if i.franking_credits.units() < 0 {
        Some("franking_credits")
    } else if i.lic_capital_gain_amount.units() < 0 {
        Some("lic_capital_gain_amount")
    } else if i.conduit_foreign_income.units() < 0 {
        Some("conduit_foreign_income")
    } else if i.amount_per_security matches Some(v) && v.units() < 0 {
        Some("amount_per_security")
    } else if i.securities_held matches Some(v) && v.units() < 0 {
        Some("securities_held")
    } else {
        None
    }
}

fn first_negative(i: &Income) -> (r: Option<&'static str>)
    requires
        i.wf(),
    ensures
        r == spec_first_negative(*i),
{
    if i.franked_amount.is_negative() {
        Some("franked_amount")
    } else if i.unfranked_amount.is_negative() {
        Some("unfranked_amount")
    } else if i.foreign_source_income.is_negative() {
        Some("foreign_source_income")
    } else if i.foreign_tax_paid.is_negative() {
        Some("foreign_tax_paid")
    } else if i.tfn_withholding_tax.is_negative() {
        Some("tfn_withholding_tax")
    } else if i.franking_credits.is_negative() {
        Some("franking_credits")
    } else if i.lic_capital_gain_amount.is_negative() {
        Some("lic_capital_gain_amount")
    } else if i.conduit_foreign_income.is_negative() {
        Some("conduit_foreign_income")
    } else if match i.amount_per_security {
        Some(v) => v.is_negative(),
        None => false,
    } {
        Some("amount_per_security")
    } else if match i.securities_held {
        Some(v) => v.is_negative(),
        None => false,
    } {
        Some("securities_held")
    } else {
        None
    }
}

/// The verdict on the row alone, `None` where the per-share arithmetic
/// overflows.
pub open spec fn spec_validate_row(i: Income) -> Option<Result<(), UpsertError>> {
    if spec_first_negative(i) is Some {
        Some(Err(UpsertError::NegativeAmount(spec_first_negative(i).unwrap())))
    } else {
        match spec_check_per_share(i) {
            None => None,
            Some(Err(e)) => Some(Err(UpsertError::PerShare(e))),
            Some(Ok(())) => if i.entitlement_date is Some && !i.trust_income {
                Some(Err(UpsertError::EntitlementDateOnNonTrust))
            } else if i.tax_deferred_amount is Some && !i.trust_income {
                Some(Err(UpsertError::TaxDeferredOnNonTrust))
            } else if i.tax_deferred_amount matches Some(td) && td.units() < 0 {
                Some(Err(UpsertError::TaxDeferredNegative))
            } else {
                Some(Ok(()))
            },
        }
    }
}

/// The checks an income row must pass on its own figures: no negative money
/// figure (named, in field order), the per-share cross-check, an entitlement
/// date only on a trust row, and a tax-deferred amount only on a trust row and
/// never negative. `None` where the per-share arithmetic overflows the decimal
/// range.
pub fn validate_row(i: &Income) -> (r: Option<Result<(), UpsertError>>)
    requires
        i.wf(),
    ensures
        r == spec_validate_row(*i),
        r == Some(Ok::<(), UpsertError>(())) ==> {
            &&& i.franked_amount.units() >= 0
            &&& i.unfranked_amount.units() >= 0
            &&& i.foreign_source_income.units() >= 0
            &&& i.foreign_tax_paid.units() >= 0
            &&& i.tfn_withholding_tax.units() >= 0
            &&& i.franking_credits.units() >= 0
            &&& i.lic_capital_gain_amount.units() >= 0
            &&& i.conduit_foreign_income.units() >= 0
            &&& i.entitlement_date is Some ==> i.trust_income
            &&& i.tax_deferred_amount matches Some(td) ==> i.trust_income && td.units() >= 0
        },
{
    if let Some(field) = first_negative(i) {
        return Some(Err(UpsertError::NegativeAmount(field)));
    }
    match check_per_share(i) {
        None => None,
        Some(Err(e)) => Some(Err(UpsertError::PerShare(e))),
        Some(Ok(())) => {
            if i.entitlement_date.is_some() && !i.trust_income {
                return Some(Err(UpsertError::EntitlementDateOnNonTrust));
            }
            if let Some(td) = i.tax_deferred_amount {
                if !i.trust_income {
                    return Some(Err(UpsertError::TaxDeferredOnNonTrust));
                }
                if td.is_negative() {
                    return Some(Err(UpsertError::TaxDeferredNegative));
                }
            }
            Some(Ok(()))
        },
    }
}

fn opt_date_eq(a: &Option<Date>, b: &Option<Date>) -> (r: bool)
    ensures
        r == (*a == *b),
{
    match (a, b) {
        (None, None) => true,
        (Some(x), Some(y)) => x.same(y),
        _ => false,
    }
}

/// The first field a reinvestment rests on that the edit changes, in the
/// order they are checked.
pub open spec fn spec_first_frozen_change(old: Income, new: Income) -> Option<&'static str> {
    if old.listing_id != new.listing_id {
        Some("listing_id")
    } else if old.holding_account_id != new.holding_account_id {
        Some("holding_account_id")
    } else if old.currency@ != new.currency@ {
        Some("currency")
    } else if old.date_paid != new.date_paid {
        Some("date_paid")
    } else if old.ex_date != new.ex_date {
        Some("ex_date")
    } else if old.entitlement_date != new.entitlement_date {
        Some("entitlement_date")
    } else if old.trust_income != new.trust_income {
        Some("trust_income")
    } else if old.franked_amount.units() != new.franked_amount.units() {
        Some("franked_amount")
    } else if old.unfranked_amount.units() != new.unfranked_amount.units() {
        Some("unfranked_amount")
    } else if old.foreign_source_income.units() != new.foreign_source_income.units() {
        Some("foreign_source_income")
    } else if old.foreign_tax_paid.units() != new.foreign_tax_paid.units() {
        Some("foreign_tax_paid")
    } else if old.tfn_withholding_tax.units() != new.tfn_withholding_tax.units() {
        Some("tfn_withholding_tax")
    } else {
        None
    }
}

fn first_frozen_change(old: &Income, new: &Income) -> (r: Option<&'static str>)
    requires
        old.wf(),
        new.wf(),
    ensures
        r == spec_first_frozen_change(*old, *new),
{
    if old.listing_id != new.listing_id {
        Some("listing_id")
    } else if old.holding_account_id != new.holding_account_id {
        Some("holding_account_id")
    } else if !text_eq(old.currency.as_str(), new.currency.as_str()) {
        Some("currency")
    } else if !old.date_paid.same(&new.date_paid) {
        Some("date_paid")
    } else if !opt_date_eq(&old.ex_date, &new.ex_date) {
        Some("ex_date")
    } else if !opt_date_eq(&old.entitlement_date, &new.entitlement_date) {
        Some("entitlement_date")
    } else if old.trust_income != new.trust_income {
        Some("trust_income")
    } else if !old.franked_amount.num_eq(&new.franked_amount) {
        Some("franked_amount")
    } else if !old.unfranked_amount.num_eq(&new.unfranked_amount) {
        Some("unfranked_amount")
    } else if !old.foreign_source_income.num_eq(&new.foreign_source_income) {
        Some("foreign_source_income")
    } else if !old.foreign_tax_paid.num_eq(&new.foreign_tax_paid) {
        Some("foreign_tax_paid")
    } else if !old.tfn_withholding_tax.num_eq(&new.tfn_withholding_tax) {
        Some("tfn_withholding_tax")
    } else {
        None
    }
}

/// The verdict on editing the stored row `existing` into `new`.
pub open spec fn spec_check_existing(existing: Option<Income>, new: Income) -> Result<
    (),
    UpsertError,
> {
    match existing {
        None => Ok(()),
        Some(old) => if old.buyback_trade_id is Some {
            Err(UpsertError::BuyBackIncome)
        } else if old.reinvestment_trade_id is Some && spec_first_frozen_change(old, new) is Some {
            Err(UpsertError::ReinvestedIncome(spec_first_frozen_change(old, new).unwrap()))
        } else {
            Ok(())
        },
    }
}

/// The rules on the stored row: a buy-back dividend component is not
/// editable, and while a row is reinvested its listing, account, currency,
/// dates, trust flag and cash components are frozen (the first changed one is
/// named). A new row (`existing` is `None`) passes.
pub fn check_existing(existing: &Option<Income>, new: &Income) -> (r: Result<(), UpsertError>)
    requires
        existing matches Some(old) ==> old.wf(),
        new.wf(),
    ensures
        r == spec_check_existing(*existing, *new),
{
    match existing {
        None => Ok(()),
        Some(old) => {
            if old.buyback_trade_id.is_some() {
                return Err(UpsertError::BuyBackIncome);
            }
            if old.reinvestment_trade_id.is_some() {
                if let Some(field) = first_frozen_change(old, new) {
                    return Err(UpsertError::ReinvestedIncome(field));
                }
            }
            Ok(())
        },
    }
}

/// An edit the rules let through on a reinvested row leaves everything the
/// reinvestment was decided on as it was: the listing, account and currency,
/// the entitlement and assessment dates, the payment date, and the value of
/// every cash component and withholding.
pub proof fn lemma_reinvested_row_keeps_its_reinvestment_facts(old: Income, new: Income)
    requires
        old.reinvestment_trade_id is Some,
        spec_check_existing(Some(old), new) is Ok,
    ensures
        new.listing_id == old.listing_id,
        new.holding_account_id == old.holding_account_id,
        new.currency@ == old.currency@,
        new.date_paid == old.date_paid,
        new.spec_ex_or_pay_date() == old.spec_ex_or_pay_date(),
        new.spec_assessment_date() == old.spec_assessment_date(),
        new.franked_amount.units() == old.franked_amount.units(),
        new.unfranked_amount.units() == old.unfranked_amount.units(),
        new.foreign_source_income.units() == old.foreign_source_income.units(),
        new.foreign_tax_paid.units() == old.foreign_tax_paid.units(),
        new.tfn_withholding_tax.units() == old.tfn_withholding_tax.units(),
{
}

/// The row belongs to an AMIT year of its listing: the listing (`amit`,
/// `amit_from`) is an AMIT in the financial year of the row's assessment date.
pub open spec fn spec_row_is_amit(listing_amit: Option<(bool, Option<Date>)>, i: Income) -> bool {
    match listing_amit {
        None => false,
        Some((amit, from)) => spec_amit_in_tax_year(
            amit,
            from,
            spec_tax_year_for(i.spec_assessment_date()),
        ),
    }
}

/// The verdict of the AMIT rules.
pub open spec fn spec_check_amit(listing_amit: Option<(bool, Option<Date>)>, i: Income) -> Result<
    (),
    UpsertError,
> {
    if !spec_row_is_amit(listing_amit, i) {
        Ok(())
    } else if !i.trust_income {
        Err(UpsertError::AmitNonTrust)
    } else if i.franking_credits.units() != 0 {
        Err(UpsertError::AmitNotionalComponent("franking_credits"))
    } else if i.lic_capital_gain_amount.units() != 0 {
        Err(UpsertError::AmitNotionalComponent("lic_capital_gain_amount"))
    } else if i.conduit_foreign_income.units() != 0 {
        Err(UpsertError::AmitNotionalComponent("conduit_foreign_income"))
    } else if i.tax_deferred_amount is Some {
        Err(UpsertError::AmitTaxDeferred)
    } else {
        Ok(())
    }
}

/// The AMIT rules, given the listing's `(amit, amit_from)` (`None` for an
/// unknown listing): a row in one of the listing's AMIT years is trust income,
/// carries no franking credit, LIC amount or conduit foreign income, and no
/// tax-deferred amount.
pub fn check_amit(listing_amit: Option<(bool, Option<Date>)>, i: &Income) -> (r: Result<
    (),
    UpsertError,
>)
    requires
        i.wf(),
        listing_amit matches Some((_, from)) ==> opt_date_wf(from),
    ensures
        r == spec_check_amit(listing_amit, *i),
{
    let row_is_amit = match listing_amit {
        None => false,
        Some((amit, from)) => {
            let d = i.assessment_date();
            amit_in_tax_year(amit, from, tax_year_for(d))
        },
    };
    if row_is_amit {
        if !i.trust_income {
            return Err(UpsertError::AmitNonTrust);
        }
        if !i.franking_credits.is_zero() {
            return Err(UpsertError::AmitNotionalComponent("franking_credits"));
        }
        if !i.lic_capital_gain_amount.is_zero() {
            return Err(UpsertError::AmitNotionalComponent("lic_capital_gain_amount"));
        }
        if !i.conduit_foreign_income.is_zero() {
            return Err(UpsertError::AmitNotionalComponent("conduit_foreign_income"));
        }
        if i.tax_deferred_amount.is_some() {
            return Err(UpsertError::AmitTaxDeferred);
        }
    }
    Ok(())
}

/// The verdict of the franking-credit and conduit-foreign-income rules.
pub open spec fn spec_check_credits(i: Income, above_ceiling: Option<Dec>) -> Result<
    (),
    UpsertError,
> {
    if !i.trust_income && i.franking_credits.units() > 0 && i.franked_amount.units() == 0 {
        Err(UpsertError::FrankingCreditWithoutDividend(i.franking_credits))
    } else if !i.trust_income && i.franking_credits.units() > 0 && above_ceiling is Some {
        Err(
            UpsertError::FrankingCreditAboveMaximum {
                credits: i.franking_credits,
                franked: i.franked_amount,
                ceiling: above_ceiling.unwrap(),
            },
        )
    } else if i.conduit_foreign_income.units() > i.unfranked_amount.units() {
        Err(
            UpsertError::ConduitExceedsUnfranked {
                cfi: i.conduit_foreign_income,
                unfranked: i.unfranked_amount,
            },
        )
    } else {
        Ok(())
    }
}

/// The credit rules: a company dividend's franking credit needs a franked
/// amount behind it and must not exceed the maximum the franking rule allows
/// (`above_ceiling` is that rule's answer: `Some(ceiling)` when the credit is
/// above it); trust rows are out of scope. Then conduit foreign income, a memo
/// within the unfranked amount, cannot exceed it.
pub fn check_credits(i: &Income, above_ceiling: Option<Dec>) -> (r: Result<(), UpsertError>)
    requires
        i.wf(),
    ensures
        r == spec_check_credits(*i, above_ceiling),
{
    if !i.trust_income && i.franking_credits.is_positive() {
        if i.franked_amount.is_zero() {
            return Err(UpsertError::FrankingCreditWithoutDividend(i.franking_credits));
        }
        if let Some(ceiling) = above_ceiling {
            return Err(
                UpsertError::FrankingCreditAboveMaximum {
                    credits: i.franking_credits,
                    franked: i.franked_amount,
                    ceiling,
                },
            );
        }
    }
    if i.conduit_foreign_income.gt(&i.unfranked_amount) {
        return Err(
            UpsertError::ConduitExceedsUnfranked {
                cfi: i.conduit_foreign_income,
                unfranked: i.unfranked_amount,
            },
        );
    }
    Ok(())
}

/// The whole verdict on an income write, in the order the checks are made.
pub open spec fn spec_check_upsert(
    i: Income,
    existing: Option<Income>,
    listing_amit: Option<(bool, Option<Date>)>,
    above_ceiling: Option<Dec>,
) -> Option<Result<(), UpsertError>> {
    match spec_validate_row(i) {
        Some(Ok(())) => match spec_check_existing(existing, i) {
            Err(e) => Some(Err(e)),
            Ok(()) => match spec_check_amit(listing_amit, i) {
                Err(e) => Some(Err(e)),
                Ok(()) => Some(spec_check_credits(i, above_ceiling)),
            },
        },
        other => other,
    }
}

/// Decide an income write: [`validate_row`], then [`check_existing`] against
/// the stored row, [`check_amit`] against the listing's AMIT status, and
/// [`check_credits`]. `None` where the per-share arithmetic overflows the
/// decimal range.
pub fn check_upsert(
    i: &Income,
    existing: &Option<Income>,
    listing_amit: Option<(bool, Option<Date>)>,
    above_ceiling: Option<Dec>,
) -> (r: Option<Result<(), UpsertError>>)
    requires
        i.wf(),
        existing matches Some(old) ==> old.wf(),
        listing_amit matches Some((_, from)) ==> opt_date_wf(from),
    ensures
        r == spec_check_upsert(*i, *existing, listing_amit, above_ceiling),
{
    match validate_row(i) {
        Some(Ok(())) => match check_existing(existing, i) {
            Err(e) => Some(Err(e)),
            Ok(()) => match check_amit(listing_amit, i) {
                Err(e) => Some(Err(e)),
                Ok(()) => Some(check_credits(i, above_ceiling)),
            },
        },
        other => other,
    }
}

/// The income row a write request describes. Provenance links are never
/// client-settable: a new row starts unlinked (an edit keeps the stored links,
/// which the write never touches).
pub fn income_from_body(id: i64, body: IncomeBody) -> (i: Income)
    ensures
        i.id == id,
        i.listing_id == body.listing_id,
        i.date_paid == body.date_paid,
        i.ex_date == body.ex_date,
        i.franked_amount == body.franked_amount,
        i.unfranked_amount == body.unfranked_amount,
        i.foreign_source_income == body.foreign_source_income,
        i.foreign_tax_paid == body.foreign_tax_paid,
        i.tfn_withholding_tax == body.tfn_withholding_tax,
        i.franking_credits == body.franking_credits,
        i.lic_capital_gain_amount == body.lic_capital_gain_amount,
        i.conduit_foreign_income == body.conduit_foreign_income,
        i.trust_income == body.trust_income,
        i.entitlement_date == body.entitlement_date,
        i.reinvestment_trade_id is None,
        i.currency == body.currency,
        i.buyback_trade_id is None,
        i.holding_account_id == body.holding_account_id,
        i.amount_per_security == body.amount_per_security,
        i.securities_held == body.securities_held,
        i.tax_deferred_amount == body.tax_deferred_amount,
{
    Income {
        id,
        listing_id: body.listing_id,
        date_paid: body.date_paid,
        ex_date: body.ex_date,
        franked_amount: body.franked_amount,
        unfranked_amount: body.unfranked_amount,
        foreign_source_income: body.foreign_source_income,
        foreign_tax_paid: body.foreign_tax_paid,
        tfn_withholding_tax: body.tfn_withholding_tax,
        franking_credits: body.franking_credits,
        lic_capital_gain_amount: body.lic_capital_gain_amount,
        conduit_foreign_income: body.conduit_foreign_income,
        trust_income: body.trust_income,
        entitlement_date: body.entitlement_date,
        reinvestment_trade_id: None,
        currency: body.currency,
        buyback_trade_id: None,
        holding_account_id: body.holding_account_id,
        amount_per_security: body.amount_per_security,
        securities_held: body.securities_held,
        tax_deferred_amount: body.tax_deferred_amount,
    }
}

/// Outcome of a delete request.
#[derive(Clone, Copy, Debug, PartialEq, Eq, Structural)]
pub enum DeleteOutcome {
    Deleted,
    NotFound,
    /// The row is a buy-back dividend component.
    BuyBackIncome,
    /// The row has a reinvestment trade.
    ReinvestedIncome,
}

/// Decide a delete from the row's `(buyback_trade_id, reinvestment_trade_id)`
/// links (`None`: no such row). `Deleted` means the row is to be removed; a
/// linked row never is.
pub fn delete_outcome(links: Option<(Option<i64>, Option<i64>)>) -> (r: DeleteOutcome)
    ensures
        r == (match links {
            None => DeleteOutcome::NotFound,
            Some((Some(_), _)) => DeleteOutcome::BuyBackIncome,
            Some((None, Some(_))) => DeleteOutcome::ReinvestedIncome,
            Some((None, None)) => DeleteOutcome::Deleted,
        }),
        r == DeleteOutcome::Deleted ==> links == Some((None::<i64>, None::<i64>)),
{
    match links {
        None => DeleteOutcome::NotFound,
        Some((Some(_), _)) => DeleteOutcome::BuyBackIncome,
        Some((_, Some(_))) => DeleteOutcome::ReinvestedIncome,
        Some((None, None)) => DeleteOutcome::Deleted,
    }
}

/// The AMIT rules judge a row by the financial year (ending 30 June) of the
/// date it is assessed on: a trust row's recorded entitlement date, else its
/// payment date. In a year the listing is not an AMIT (or for an unknown
/// listing) nothing is refused; in an AMIT year a row that is not trust income
/// is refused, a trust row carrying franking credits is refused for them, and
/// a trust row carrying none of the notional components and no tax-deferred
/// amount is accepted.
pub proof fn lemma_amit_rules_follow_the_assessment_year(
    amit: bool,
    amit_from: Option<Date>,
    i: Income,
)
    ensures
        ({
            let assessed = if i.trust_income && i.entitlement_date is Some {
                i.entitlement_date.unwrap()
            } else {
                i.date_paid
            };
            let year = if assessed.month >= 7 {
                assessed.year + 1
            } else {
                assessed.year as int
            };
            let amit_year = amit && match amit_from {
                None => true,
                Some(f) => (if f.month >= 7 {
                    f.year + 1
                } else {
                    f.year as int
                }) <= year,
            };
            let r = spec_check_amit(Some((amit, amit_from)), i);
            &&& !amit_year ==> r == Ok::<(), UpsertError>(())
            &&& amit_year && !i.trust_income ==> r == Err::<(), UpsertError>(
                UpsertError::AmitNonTrust,
            )
            &&& amit_year && i.trust_income && i.franking_credits.units() != 0 ==> r == Err::<
                (),
                UpsertError,
            >(UpsertError::AmitNotionalComponent("franking_credits"))
            &&& amit_year && i.trust_income && i.franking_credits.units() == 0
                && i.lic_capital_gain_amount.units() == 0 && i.conduit_foreign_income.units() == 0
                && i.tax_deferred_amount is None ==> r == Ok::<(), UpsertError>(())
        }),
        spec_check_amit(None, i) == Ok::<(), UpsertError>(()),
{
}

/// The credit rules: a company dividend (not a trust row) carrying franking
/// credits is refused when it has no franked amount or its credits are above
/// the franking maximum; a trust row's credits are never refused here; and
/// conduit foreign income is refused exactly when it exceeds the unfranked
/// amount. Nothing else is refused.
pub proof fn lemma_credit_rules(i: Income, above_ceiling: Option<Dec>)
    ensures
        spec_check_credits(i, above_ceiling) is Ok <==> {
            &&& !i.trust_income && i.franking_credits.units() > 0 ==> i.franked_amount.units()
                != 0 && above_ceiling is None
            &&& i.conduit_foreign_income.units() <= i.unfranked_amount.units()
        },
{
}

/// Editing a stored row: a new row, or an edit of a row that is neither a
/// buy-back dividend component nor reinvested, is accepted; a buy-back
/// component is never editable; and a reinvested row is accepted exactly when
/// the edit keeps its listing, account, currency, payment, ex and entitlement
/// dates, trust flag and the value of every cash component and withholding.
pub proof fn lemma_edit_rules(existing: Option<Income>, new: Income)
    ensures
        existing is None ==> spec_check_existing(existing, new) is Ok,
        existing matches Some(old) ==> (old.buyback_trade_id is Some ==> spec_check_existing(
            existing,
            new,
        ) == Err::<(), UpsertError>(UpsertError::BuyBackIncome)),
        existing matches Some(old) ==> (old.buyback_trade_id is None
            && old.reinvestment_trade_id is None ==> spec_check_existing(existing, new) is Ok),
        existing matches Some(old) ==> (old.buyback_trade_id is None
            && old.reinvestment_trade_id is Some ==> (spec_check_existing(existing, new) is Ok <==> {
            &&& old.listing_id == new.listing_id
            &&& old.holding_account_id == new.holding_account_id
            &&& old.currency@ == new.currency@
            &&& old.date_paid == new.date_paid
            &&& old.ex_date == new.ex_date
            &&& old.entitlement_date == new.entitlement_date
            &&& old.trust_income == new.trust_income
            &&& old.franked_amount.units() == new.franked_amount.units()
            &&& old.unfranked_amount.units() == new.unfranked_amount.units()
            &&& old.foreign_source_income.units() == new.foreign_source_income.units()
            &&& old.foreign_tax_paid.units() == new.foreign_tax_paid.units()
            &&& old.tfn_withholding_tax.units() == new.tfn_withholding_tax.units()
        })),
{
}

/// A row with no negative figure and no per-share figures, whose entitlement
/// date and tax-deferred amount (not negative) appear only on a trust row, is
/// accepted on its own figures; a negative figure is refused by name.
pub proof fn lemma_row_rules(i: Income)
    ensures
        ({
            &&& i.franked_amount.units() >= 0
            &&& i.unfranked_amount.units() >= 0
            &&& i.foreign_source_income.units() >= 0
            &&& i.foreign_tax_paid.units() >= 0
            &&& i.tfn_withholding_tax.units() >= 0
            &&& i.franking_credits.units() >= 0
            &&& i.lic_capital_gain_amount.units() >= 0
            &&& i.conduit_foreign_income.units() >= 0
            &&& i.amount_per_security is None
            &&& i.securities_held is None
            &&& i.entitlement_date is Some ==> i.trust_income
            &&& i.tax_deferred_amount matches Some(td) ==> i.trust_income && td.units() >= 0
        }) ==> spec_validate_row(i) == Some(Ok::<(), UpsertError>(())),
        i.franked_amount.units() < 0 ==> spec_validate_row(i) == Some(
            Err::<(), UpsertError>(UpsertError::NegativeAmount("franked_amount")),
        ),
{
}

} // verus!
