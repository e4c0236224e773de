//! Deductible investment expenses: the cost of earning assessable investment
//! income, recorded at its deductible (post-apportionment) amount.

use vstd::prelude::*;
pub use crate::text::default_currency;
use crate::date::Date;
use crate::money::{
    Dec,
    checked_div,
    checked_mul,
    dec_checked_div,
    dec_checked_mul,
    lemma_product_value,
    lemma_round_cents_value,
    opt_wf,
    product_fits,
    product_units,
    round_cents,
    round_cents_units,
    spec_round_cents,
};

verus! {

/// The kind of expense.
#[derive(Clone, Copy, Debug, PartialEq, Eq, Structural)]
pub enum ExpenseType {
    /// Interest on money borrowed to buy income-producing investments.
    LoanInterest,
    /// Ongoing investment management fees.
    ManagementFee,
    /// Financial-advice fees about an existing investment mix.
    AdviceFee,
    /// Investment-account keeping fees.
    AccountKeepingFee,
    /// Specialist investment journals and subscriptions.
    Subscription,
    /// Any other deductible investment expense.
    Other,
}

/// One deductible expense.
#[derive(Clone, Debug)]
pub struct InvestmentExpense {
    pub id: i64,
    pub date_incurred: Date,
    pub expense_type: ExpenseType,
    /// The deductible amount, the figure the tax summary totals.
    pub amount: Dec,
    /// Provenance: the pre-apportionment gross.
    pub gross_amount: Option<Dec>,
    /// Provenance: the deductible percentage of the gross (0 to 100).
    pub deductible_percentage: Option<Dec>,
    pub currency: String,
    pub description: Option<String>,
    pub listing_id: Option<i64>,
    pub holding_account_id: Option<i64>,
}

/// An expense as a write request states it.
#[derive(Clone, Debug)]
pub struct InvestmentExpenseBody {
    pub date_incurred: Date,
    pub expense_type: ExpenseType,
    pub amount: Dec,
    pub gross_amount: Option<Dec>,
    pub deductible_percentage: Option<Dec>,
    pub currency: String,
    pub description: Option<String>,
    pub listing_id: Option<i64>,
    pub holding_account_id: Option<i64>,
}

impl InvestmentExpense {
    pub open spec fn wf(&self) -> bool {
        &&& self.amount.wf()
        &&& opt_wf(self.gross_amount)
        &&& opt_wf(self.deductible_percentage)
    }
}

/// Why an expense write was refused.
#[derive(Clone, Debug)]
pub enum UpsertError {
    /// A negative `amount` or `gross_amount` (carries the field name).
    NegativeAmount(&'static str),
    /// `deductible_percentage` outside 0 to 100 (carries it).
    PercentageOutOfRange(Dec),
    /// `gross_amount × deductible_percentage / 100`, to the cent, is not
    /// `amount` to the cent (carries the computed figure).
    ApportionmentMismatch { product: Dec },
}

/// One hundred, `Decimal::ONE_HUNDRED`.
pub open spec fn one_hundred() -> Dec {
    Dec { mantissa: 100, scale: 0 }
}

/// Round half away from zero to the cent, the way statements do.
pub fn to_cents(v: Dec) -> (r: Dec)
    requires
        v.wf(),
    ensures
        r == spec_round_cents(v),
        r.wf(),
{
    round_cents(v)
}

/// The verdict of [`check_apportionment`].
pub open spec fn spec_check_apportionment(e: InvestmentExpense) -> Option<Result<(), UpsertError>> {
    match (e.gross_amount, e.deductible_percentage) {
        (Some(gross), Some(pct)) => match dec_checked_mul(gross, pct) {
            None => None,
            Some(p) => match dec_checked_div(p, one_hundred()) {
                None => None,
                Some(q) => {
                    let product = spec_round_cents(q);
                    if product.units() == spec_round_cents(e.amount).units() {
                        Some(Ok(()))
                    } else {
                        Some(Err(UpsertError::ApportionmentMismatch { product }))
                    }
                },
            },
        },
        _ => Some(Ok(())),
    }
}

/// Apportionment figures whose arithmetic needs no rounding: the product
/// `gross × percentage` fits a 96-bit mantissa at the summed scale, and the
/// crate divides it by 100 exactly (at most 19 decimals, a mantissa below
/// 100 × 2^66 in magnitude).
pub open spec fn apportionment_exact(gross: Dec, pct: Dec) -> bool {
    &&& product_fits(gross, pct)
    &&& gross.scale + pct.scale <= 19
    &&& -7378697629483820646400 < (gross.mantissa as int) * (pct.mantissa as int)
        < 7378697629483820646400
}

/// Cross-check the apportionment provenance against the deductible amount:
/// `gross_amount × deductible_percentage / 100`, to the cent, must equal
/// `amount` to the cent. Only when both are supplied. `None` where the
/// arithmetic overflows the decimal range. For figures whose arithmetic is
/// [`apportionment_exact`] nothing rounds but the two cent-roundings, and the
/// check is the one on the exact values.
pub fn check_apportionment(e: &InvestmentExpense) -> (r: Option<Result<(), UpsertError>>)
    requires
        e.wf(),
    ensures
        r == spec_check_apportionment(*e),
        e.gross_amount matches Some(gross) ==> (e.deductible_percentage matches Some(pct) ==> (
        apportionment_exact(gross, pct) ==> (r matches Some(res) && (res is Ok) == (
        round_cents_units(product_units(gross, pct) / 100) == round_cents_units(
            e.amount.units(),
        ))))),
{
    match (e.gross_amount, e.deductible_percentage) {
        (Some(gross), Some(pct)) => {
            let ghost in_range = apportionment_exact(gross, pct);
            let p = match checked_mul(gross, pct) {
                None => {
                    return None;
                },
                Some(p) => p,
            };
            proof {
                if in_range {
                    lemma_product_value(gross, pct, p);
                    assert(crate::money::divides_exactly(p, 100));
                }
            }
            let q = match checked_div(p, Dec::new(100, 0)) {
                None => {
                    return None;
                },
                Some(q) => q,
            };
            let product = to_cents(q);
            let amount_cents = to_cents(e.amount);
            proof {
                lemma_round_cents_value(q);
                lemma_round_cents_value(e.amount);
                if in_range {
                    vstd::arithmetic::div_mod::lemma_fundamental_div_mod_converse_div(
                        p.units(),
                        100,
                        q.units(),
                        0,
                    );
                }
            }
            if product.num_eq(&amount_cents) {
                Some(Ok(()))
            } else {
                Some(Err(UpsertError::ApportionmentMismatch { product }))
            }
        },
        _ => Some(Ok(())),
    }
}

/// The verdict of [`validate`].
pub open spec fn spec_validate(e: InvestmentExpense) -> Option<Result<(), UpsertError>> {
    if e.amount.units() < 0 {
        Some(Err(UpsertError::NegativeAmount("amount")))
    } else if e.gross_amount matches Some(g) && g.units() < 0 {
        Some(Err(UpsertError::NegativeAmount("gross_amount")))
    } else if e.deductible_percentage matches Some(p) && (p.units() < 0 || p.units()
        > one_hundred().units()) {
        Some(Err(UpsertError::PercentageOutOfRange(e.deductible_percentage.unwrap())))
    } else {
        spec_check_apportionment(e)
    }
}

/// Decide an expense write: no negative amount or gross, a percentage within
/// 0 to 100, then [`check_apportionment`]. `None` where the arithmetic
/// overflows the decimal range.
pub fn validate(e: &InvestmentExpense) -> (r: Option<Result<(), UpsertError>>)
    requires
        e.wf(),
    ensures
        r == spec_validate(*e),
{
    if e.amount.is_negative() {
        return Some(Err(UpsertError::NegativeAmount("amount")));
    }
    if let Some(g) = e.gross_amount {
        if g.is_negative() {
            return Some(Err(UpsertError::NegativeAmount("gross_amount")));
        }
    }
    if let Some(pct) = e.deductible_percentage {
        let hundred = Dec::new(100, 0);
        if pct.is_negative() || pct.gt(&hundred) {
            return Some(Err(UpsertError::PercentageOutOfRange(pct)));
        }
    }
    check_apportionment(e)
}

/// The row a write request describes.
pub fn expense_from_body(id: i64, body: InvestmentExpenseBody) -> (e: InvestmentExpense)
    ensures
        e.id == id,
        e.date_incurred == body.date_incurred,
        e.expense_type == body.expense_type,
        e.amount == body.amount,
        e.gross_amount == body.gross_amount,
        e.deductible_percentage == body.deductible_percentage,
        e.currency == body.currency,
        e.description == body.description,
        e.listing_id == body.listing_id,
        e.holding_account_id == body.holding_account_id,
{
    InvestmentExpense {
        id,
        date_incurred: body.date_incurred,
        expense_type: body.expense_type,
        amount: body.amount,
        gross_amount: body.gross_amount,
        deductible_percentage: body.deductible_percentage,
        currency: body.currency,
        description: body.description,
        listing_id: body.listing_id,
        holding_account_id: body.holding_account_id,
    }
}

/// An expense is refused when its amount or gross is negative or its
/// percentage is outside 0 to 100; one that states no gross or no percentage
/// is accepted as soon as those hold.
pub proof fn lemma_expense_rules(e: InvestmentExpense)
    ensures
        spec_validate(e) == Some(Ok::<(), UpsertError>(())) ==> {
            &&& e.amount.units() >= 0
            &&& e.gross_amount matches Some(g) ==> g.units() >= 0
            &&& e.deductible_percentage matches Some(p) ==> 0 <= p.units() <= 100 * crate::money::pow10(28)
        },
        ({
            &&& e.amount.units() >= 0
            &&& e.gross_amount matches Some(g) ==> g.units() >= 0
            &&& e.deductible_percentage matches Some(p) ==> 0 <= p.units() <= 100 * crate::money::pow10(28)
            &&& e.gross_amount is None || e.deductible_percentage is None
        }) ==> spec_validate(e) == Some(Ok::<(), UpsertError>(())),
{
}

} // verus!
