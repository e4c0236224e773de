//! Inherited share parcels: the inheritance facts, the rules they must
//! satisfy, and the parcel Buy they create (dated the date of death, carrying
//! the whole cost base).

use vstd::prelude::*;
pub use crate::text::default_currency;
use crate::date::{Date, before, cgt_start};
use crate::money::{Dec, cents_figure, checked_add, dec_checked_add, lemma_cents_figures_fit};
use crate::text::{aud, eq_ignoring_ascii_case, format_year_month, is_aud_ignoring_case, text_eq};
use crate::trade::{NewTrade, TradeType};

verus! {

/// Which rule produced the first-element cost base.
#[derive(Clone, Copy, Debug, PartialEq, Eq, Structural)]
pub enum CostBaseRule {
    /// The deceased acquired the asset on or after 20 September 1985: their
    /// cost base carries over and the discount clock runs from their
    /// acquisition.
    DeceasedCostBase,
    /// A pre-CGT asset in the deceased's hands: the market value at death, and
    /// the clock runs from the death.
    MarketValueAtDeath,
}

/// One inherited parcel.
#[derive(Clone, Debug)]
pub struct Inheritance {
    pub id: i64,
    pub listing_id: i64,
    pub holding_account_id: i64,
    /// Units inherited.
    pub quantity: Dec,
    pub date_of_death: Date,
    pub cost_base_rule: CostBaseRule,
    /// The whole-parcel first-element cost base.
    pub cost_base: Dec,
    /// LPR expenditure added to the cost base.
    pub lpr_expenditure: Dec,
    pub lpr_expenditure_date: Option<Date>,
    /// Required with `DeceasedCostBase`, absent with `MarketValueAtDeath`.
    pub deceased_acquisition_date: Option<Date>,
    pub currency: String,
    /// Fallback foreign-per-AUD rate; 1 for AUD.
    pub fx_rate: Dec,
}

/// An inheritance as a write request states it.
#[derive(Clone, Debug)]
pub struct InheritanceBody {
    pub listing_id: i64,
    pub holding_account_id: i64,
    pub quantity: Dec,
    pub date_of_death: Date,
    pub cost_base_rule: CostBaseRule,
    pub cost_base: Dec,
    /// Absent means none.
    pub lpr_expenditure: Option<Dec>,
    pub lpr_expenditure_date: Option<Date>,
    pub deceased_acquisition_date: Option<Date>,
    pub currency: String,
    /// Absent means 1.
    pub fx_rate: Option<Dec>,
}

impl Inheritance {
    pub open spec fn wf(&self) -> bool {
        &&& self.quantity.wf()
        &&& self.cost_base.wf()
        &&& self.lpr_expenditure.wf()
        &&& self.fx_rate.wf()
        &&& self.date_of_death.wf()
        &&& self.deceased_acquisition_date matches Some(d) ==> d.wf()
    }
}

/// Why an inheritance write was refused.
#[derive(Clone, Debug)]
pub enum UpsertError {
    /// The inherited quantity is not above zero.
    QuantityNotPositive,
    /// A negative cost base or LPR expenditure.
    NegativeAmount,
    /// The deceased's acquisition date present without `DeceasedCostBase`, or
    /// absent with it.
    RuleAcquisitionDateMismatch,
    /// `DeceasedCostBase` with a pre-CGT acquisition.
    DeceasedAcquisitionPreCgt,
    /// A death before the start of CGT.
    DeathPreCgt,
    /// The deceased's acquisition is after the death.
    DeceasedAcquisitionAfterDeath,
    /// A non-zero LPR expenditure without its date, or a date without one.
    LprExpenditureDateMismatch,
    /// The LPR expenditure date is before the death.
    LprExpenditureBeforeDeath,
    /// The parcel Buy is drawn on by a Sell allocation or AMIT adjustment.
    ParcelDrawnOn,
    /// The fallback rate is not above zero.
    FxRateNotPositive,
    /// A non-zero LPR expenditure on a non-AUD inheritance.
    LprExpenditureOnForeignParcel,
    /// The inheritance's currency is not its listing's.
    CurrencyNotListings { inheritance: String, listing: String },
    /// No ATO rate for the conversion month and no stated rate.
    MissingFxRate { currency: String, month: String },
    /// A return of capital on the listing is in another currency than the
    /// parcel.
    PaymentCurrencyMismatch { payment_date: Date, payment_currency: String, parcel_currency: String },
}

/// The verdict of [`validate`].
pub open spec fn spec_validate(inh: Inheritance) -> Result<(), UpsertError> {
    let cgt = Date { year: 1985, month: 9, day: 20 };
    if inh.quantity.units() <= 0 {
        Err(UpsertError::QuantityNotPositive)
    } else if inh.cost_base.units() < 0 || inh.lpr_expenditure.units() < 0 {
        Err(UpsertError::NegativeAmount)
    } else if inh.fx_rate.units() <= 0 {
        Err(UpsertError::FxRateNotPositive)
    } else if before(inh.date_of_death, cgt) {
        Err(UpsertError::DeathPreCgt)
    } else if inh.cost_base_rule == CostBaseRule::DeceasedCostBase
        && inh.deceased_acquisition_date is Some && before(
        inh.deceased_acquisition_date.unwrap(),
        cgt,
    ) {
        Err(UpsertError::DeceasedAcquisitionPreCgt)
    } else if inh.cost_base_rule == CostBaseRule::DeceasedCostBase
        && inh.deceased_acquisition_date is Some && before(
        inh.date_of_death,
        inh.deceased_acquisition_date.unwrap(),
    ) {
        Err(UpsertError::DeceasedAcquisitionAfterDeath)
    } else if (inh.cost_base_rule == CostBaseRule::DeceasedCostBase)
        != inh.deceased_acquisition_date is Some {
        Err(UpsertError::RuleAcquisitionDateMismatch)
    } else if inh.lpr_expenditure.units() != 0 && !eq_ignoring_ascii_case(inh.currency@, aud()) {
        Err(UpsertError::LprExpenditureOnForeignParcel)
    } else if inh.lpr_expenditure_date is Some && inh.lpr_expenditure.units() == 0 {
        Err(UpsertError::LprExpenditureDateMismatch)
    } else if inh.lpr_expenditure_date is Some && before(
        inh.lpr_expenditure_date.unwrap(),
        inh.date_of_death,
    ) {
        Err(UpsertError::LprExpenditureBeforeDeath)
    } else if inh.lpr_expenditure_date is None && inh.lpr_expenditure.units() != 0 {
        Err(UpsertError::LprExpenditureDateMismatch)
    } else {
        Ok(())
    }
}

/// The rules an inheritance must satisfy on its own: a positive quantity, no
/// negative cost base or LPR expenditure, a positive rate, a death on or after
/// the start of CGT, the deceased's acquisition date exactly with the
/// `DeceasedCostBase` rule (and then post-CGT and not after the death), LPR
/// expenditure only on an AUD inheritance, and a non-zero LPR expenditure
/// exactly when it is dated (on or after the death).
pub fn validate(inh: &Inheritance) -> (r: Result<(), UpsertError>)
    requires
        inh.wf(),
    ensures
        r == spec_validate(*inh),
        r is Ok ==> {
            &&& inh.quantity.units() > 0
            &&& inh.cost_base.units() >= 0
            &&& inh.lpr_expenditure.units() >= 0
            &&& inh.fx_rate.units() > 0
            &&& !before(inh.date_of_death, Date { year: 1985, month: 9, day: 20 })
            &&& (inh.cost_base_rule == CostBaseRule::DeceasedCostBase)
                == inh.deceased_acquisition_date is Some
            &&& (inh.lpr_expenditure.units() != 0) == inh.lpr_expenditure_date is Some
        },
{
    if !inh.quantity.is_positive() {
        return Err(UpsertError::QuantityNotPositive);
    }
    if inh.cost_base.is_negative() || inh.lpr_expenditure.is_negative() {
        return Err(UpsertError::NegativeAmount);
    }
    if !inh.fx_rate.is_positive() {
        return Err(UpsertError::FxRateNotPositive);
    }
    let cgt = cgt_start();
    if inh.date_of_death.is_before(&cgt) {
        return Err(UpsertError::DeathPreCgt);
    }
    match (inh.cost_base_rule, inh.deceased_acquisition_date) {
        (CostBaseRule::DeceasedCostBase, Some(acquired)) => {
            if acquired.is_before(&cgt) {
                return Err(UpsertError::DeceasedAcquisitionPreCgt);
            }
            if inh.date_of_death.is_before(&acquired) {
                return Err(UpsertError::DeceasedAcquisitionAfterDeath);
            }
        },
        (CostBaseRule::MarketValueAtDeath, None) => {},
        _ => {
            return Err(UpsertError::RuleAcquisitionDateMismatch);
        },
    }
    if !inh.lpr_expenditure.is_zero() && !is_aud_ignoring_case(inh.currency.as_str()) {
        return Err(UpsertError::LprExpenditureOnForeignParcel);
    }
    match inh.lpr_expenditure_date {
        Some(incurred) => {
            if inh.lpr_expenditure.is_zero() {
                return Err(UpsertError::LprExpenditureDateMismatch);
            }
            if incurred.is_before(&inh.date_of_death) {
                return Err(UpsertError::LprExpenditureBeforeDeath);
            }
        },
        None => {
            if !inh.lpr_expenditure.is_zero() {
                return Err(UpsertError::LprExpenditureDateMismatch);
            }
        },
    }
    Ok(())
}

/// The date whose month the cost base converts at: the deceased's
/// acquisition under `DeceasedCostBase`, else the death.
pub open spec fn spec_conversion_date(inh: Inheritance) -> Date {
    match inh.deceased_acquisition_date {
        Some(d) => d,
        None => inh.date_of_death,
    }
}

/// The text of the conversion month: the year as chrono writes it for `%Y`,
/// a hyphen, and the month as two digits.
pub open spec fn spec_month_text(inh: Inheritance) -> Seq<char> {
    crate::text::year_text(spec_conversion_date(inh).year as int) + seq!['-']
        + crate::text::two_digits(spec_conversion_date(inh).month as int)
}

/// The month the parcel's cost base converts at, as `YYYY-MM`.
pub fn conversion_month(inh: &Inheritance) -> (m: String)
    requires
        inh.wf(),
    ensures
        m@ == spec_month_text(*inh),
{
    let d = match inh.deceased_acquisition_date {
        Some(d) => d,
        None => inh.date_of_death,
    };
    format_year_month(d.year, d.month)
}

/// The inheritance is converted through an ATO rate that must exist: it is
/// not in AUD (any case) and states no rate of its own (`fx_rate` is 1).
pub open spec fn spec_needs_ato_rate(inh: Inheritance) -> bool {
    !eq_ignoring_ascii_case(inh.currency@, aud()) && inh.fx_rate.units() == Dec {
        mantissa: 1,
        scale: 0,
    }.units()
}

/// Does the inheritance rely on an imported ATO rate for its conversion
/// month? Only then is the rate's absence refused.
pub fn needs_ato_rate(inh: &Inheritance) -> (b: bool)
    requires
        inh.wf(),
    ensures
        b == spec_needs_ato_rate(*inh),
{
    !is_aud_ignoring_case(inh.currency.as_str()) && inh.fx_rate.num_eq(&Dec::new(1, 0))
}

/// The verdict of [`check_listing_currency`].
pub open spec fn spec_check_listing_currency(inh: Inheritance, listing_currency: Option<String>) -> Result<
    (),
    UpsertError,
> {
    if listing_currency matches Some(l) && l@ != inh.currency@ {
        Err(
            UpsertError::CurrencyNotListings {
                inheritance: inh.currency,
                listing: listing_currency.unwrap(),
            },
        )
    } else {
        Ok(())
    }
}

/// The inheritance's currency must be its listing's (`listing_currency`,
/// `None` for an unknown listing, which the listing reference itself refuses).
pub fn check_listing_currency(inh: &Inheritance, listing_currency: &Option<String>) -> (r: Result<
    (),
    UpsertError,
>)
    ensures
        r == spec_check_listing_currency(*inh, *listing_currency),
{
    if let Some(listing) = listing_currency {
        if !text_eq(listing.as_str(), inh.currency.as_str()) {
            return Err(
                UpsertError::CurrencyNotListings {
                    inheritance: inh.currency.clone(),
                    listing: listing.clone(),
                },
            );
        }
    }
    Ok(())
}

/// A non-AUD inheritance stating no rate of its own must have an ATO rate for
/// its conversion month (`ato_rate_exists`); otherwise it is refused naming
/// its currency and that month, rather than costed at parity.
pub fn check_convertible(inh: &Inheritance, ato_rate_exists: bool) -> (r: Result<(), UpsertError>)
    requires
        inh.wf(),
    ensures
        r is Err <==> spec_needs_ato_rate(*inh) && !ato_rate_exists,
        r matches Err(e) ==> (e matches UpsertError::MissingFxRate { currency, month }
            && currency == inh.currency && month@ == spec_month_text(*inh)),
{
    if needs_ato_rate(inh) && !ato_rate_exists {
        let month = conversion_month(inh);
        return Err(UpsertError::MissingFxRate { currency: inh.currency.clone(), month });
    }
    Ok(())
}

/// The verdict of [`check_upsert`], given the conversion month's text.
pub open spec fn spec_check_upsert(
    inh: Inheritance,
    listing_currency: Option<String>,
    ato_rate_exists: bool,
    parcel_drawn_on: bool,
    month: String,
) -> Result<(), UpsertError> {
    if spec_validate(inh) is Err {
        spec_validate(inh)
    } else if spec_check_listing_currency(inh, listing_currency) is Err {
        spec_check_listing_currency(inh, listing_currency)
    } else if spec_needs_ato_rate(inh) && !ato_rate_exists {
        Err(UpsertError::MissingFxRate { currency: inh.currency, month })
    } else if parcel_drawn_on {
        Err(UpsertError::ParcelDrawnOn)
    } else {
        Ok(())
    }
}

/// Decide an inheritance write: [`validate`]; [`check_listing_currency`];
/// [`check_convertible`]; and an existing parcel Buy that is drawn on freezes
/// it (`parcel_drawn_on`).
pub fn check_upsert(
    inh: &Inheritance,
    listing_currency: &Option<String>,
    ato_rate_exists: bool,
    parcel_drawn_on: bool,
) -> (r: Result<(), UpsertError>)
    requires
        inh.wf(),
    ensures
        !(r matches Err(UpsertError::MissingFxRate { .. })) ==> forall|month: String|
            r == spec_check_upsert(
                *inh,
                *listing_currency,
                ato_rate_exists,
                parcel_drawn_on,
                month,
            ),
        r matches Err(UpsertError::MissingFxRate { currency, month }) ==> (currency == inh.currency
            && month@ == spec_month_text(*inh) && spec_check_upsert(
            *inh,
            *listing_currency,
            ato_rate_exists,
            parcel_drawn_on,
            month,
        ) == r),
{
    validate(inh)?;
    check_listing_currency(inh, listing_currency)?;
    check_convertible(inh, ato_rate_exists)?;
    if parcel_drawn_on {
        return Err(UpsertError::ParcelDrawnOn);
    }
    Ok(())
}

/// A parcel whose Buy is drawn on is frozen: an edit that would otherwise be
/// accepted is refused as drawn on, and one that is not drawn on is decided
/// by the inheritance's own rules alone.
pub proof fn lemma_drawn_on_parcel_is_frozen(
    inh: Inheritance,
    listing_currency: Option<String>,
    ato_rate_exists: bool,
    month: String,
)
    ensures
        spec_check_upsert(inh, listing_currency, ato_rate_exists, false, month) is Ok
            ==> spec_check_upsert(inh, listing_currency, ato_rate_exists, true, month) == Err::<
            (),
            UpsertError,
        >(UpsertError::ParcelDrawnOn),
        spec_check_upsert(inh, listing_currency, ato_rate_exists, false, month) is Err
            ==> spec_check_upsert(inh, listing_currency, ato_rate_exists, true, month)
            == spec_check_upsert(inh, listing_currency, ato_rate_exists, false, month),
{
}

/// The parcel Buy's whole cost base: first element plus LPR expenditure, as
/// `rust_decimal` adds them (`None` where the sum overflows).
pub fn total_cost_base(inh: &Inheritance) -> (r: Option<Dec>)
    requires
        inh.wf(),
    ensures
        r == dec_checked_add(inh.cost_base, inh.lpr_expenditure),
        cents_figure(inh.cost_base, 1) && cents_figure(inh.lpr_expenditure, 1) ==> (r matches Some(
            x,
        ) && x.units() == inh.cost_base.units() + inh.lpr_expenditure.units()),
{
    proof {
        if cents_figure(inh.cost_base, 1) && cents_figure(inh.lpr_expenditure, 1) {
            lemma_cents_figures_fit(inh.cost_base, inh.lpr_expenditure, 1);
        }
    }
    checked_add(inh.cost_base, inh.lpr_expenditure)
}

/// The parcel Buy an inheritance creates: its quantity at a price of 0,
/// dated and settled on the date of death, carrying the whole cost base
/// ([`total_cost_base`]) on the brokerage column with no GST, in the
/// inheritance's currency at its rate, linked to the inheritance, with the
/// deceased's acquisition date (when the deceased's cost base carries over)
/// as the date the discount clock runs from. `None` where the cost base and
/// the LPR expenditure do not add up within the decimal range.
pub fn parcel_buy(inh: &Inheritance) -> (r: Option<NewTrade>)
    requires
        inh.wf(),
    ensures
        r is None <==> dec_checked_add(inh.cost_base, inh.lpr_expenditure) is None,
        r matches Some(t) ==> {
            &&& t.trade_type == TradeType::Buy
            &&& t.date == inh.date_of_death
            &&& t.settlement_date == inh.date_of_death
            &&& t.listing_id == inh.listing_id
            &&& t.holding_account_id == inh.holding_account_id
            &&& t.average_price == (Dec { mantissa: 0, scale: 0 })
            &&& t.quantity == inh.quantity
            &&& t.currency == inh.currency
            &&& Some(t.brokerage) == dec_checked_add(inh.cost_base, inh.lpr_expenditure)
            &&& t.gst_on_brokerage == (Dec { mantissa: 0, scale: 0 })
            &&& t.brokerage_currency == inh.currency
            &&& t.fx_rate == inh.fx_rate
            &&& t.ess_statement_id is None
            &&& t.inheritance_id == Some(inh.id)
            &&& t.deemed_acquisition_date == inh.deceased_acquisition_date
        },
        r matches Some(t) ==> (cents_figure(inh.cost_base, 1) && cents_figure(inh.lpr_expenditure, 1)
            ==> t.brokerage.units() == inh.cost_base.units() + inh.lpr_expenditure.units()),
        cents_figure(inh.cost_base, 1) && cents_figure(inh.lpr_expenditure, 1) ==> r is Some,
{
    let total = match total_cost_base(inh) {
        Some(t) => t,
        None => {
            return None;
        },
    };
    Some(
        NewTrade {
            trade_type: TradeType::Buy,
            date: inh.date_of_death,
            settlement_date: inh.date_of_death,
            listing_id: inh.listing_id,
            holding_account_id: inh.holding_account_id,
            average_price: Dec::zero(),
            quantity: inh.quantity,
            currency: inh.currency.clone(),
            brokerage: total,
            gst_on_brokerage: Dec::zero(),
            brokerage_currency: inh.currency.clone(),
            fx_rate: inh.fx_rate,
            ess_statement_id: None,
            inheritance_id: Some(inh.id),
            deemed_acquisition_date: inh.deceased_acquisition_date,
        },
    )
}

/// The inheritance a write request describes: no LPR expenditure when absent,
/// a rate of 1 when absent.
pub fn inheritance_from_body(id: i64, body: InheritanceBody) -> (inh: Inheritance)
    ensures
        inh.id == id,
        inh.listing_id == body.listing_id,
        inh.holding_account_id == body.holding_account_id,
        inh.quantity == body.quantity,
        inh.date_of_death == body.date_of_death,
        inh.cost_base_rule == body.cost_base_rule,
        inh.cost_base == body.cost_base,
        inh.lpr_expenditure == (match body.lpr_expenditure {
            Some(l) => l,
            None => Dec { mantissa: 0, scale: 0 },
        }),
        inh.lpr_expenditure_date == body.lpr_expenditure_date,
        inh.deceased_acquisition_date == body.deceased_acquisition_date,
        inh.currency == body.currency,
        inh.fx_rate == (match body.fx_rate {
            Some(f) => f,
            None => Dec { mantissa: 1, scale: 0 },
        }),
{
    Inheritance {
        id,
        listing_id: body.listing_id,
        holding_account_id: body.holding_account_id,
        quantity: body.quantity,
        date_of_death: body.date_of_death,
        cost_base_rule: body.cost_base_rule,
        cost_base: body.cost_base,
        lpr_expenditure: match body.lpr_expenditure {
            Some(l) => l,
            None => Dec::zero(),
        },
        lpr_expenditure_date: body.lpr_expenditure_date,
        deceased_acquisition_date: body.deceased_acquisition_date,
        currency: body.currency,
        fx_rate: match body.fx_rate {
            Some(f) => f,
            None => Dec::new(1, 0),
        },
    }
}

/// Outcome of a delete request.
#[derive(Clone, Copy, Debug, PartialEq, Eq, Structural)]
pub enum DeleteOutcome {
    Deleted,
    NotFound,
    /// The parcel Buy is drawn on.
    ParcelDrawnOn,
}

/// Decide a delete: `exists` whether the inheritance exists, `buy` its parcel
/// Buy if recorded, `drawn_on` whether that Buy is drawn on. `Deleted`
/// removes the inheritance and its Buy together; a drawn-on parcel never is.
pub fn delete_outcome(exists: bool, buy: Option<i64>, drawn_on: bool) -> (r: DeleteOutcome)
    ensures
        r == (if !exists {
            DeleteOutcome::NotFound
        } else if buy is Some && drawn_on {
            DeleteOutcome::ParcelDrawnOn
        } else {
            DeleteOutcome::Deleted
        }),
{
    if !exists {
        DeleteOutcome::NotFound
    } else if buy.is_some() && drawn_on {
        DeleteOutcome::ParcelDrawnOn
    } else {
        DeleteOutcome::Deleted
    }
}

/// An inheritance is accepted on its own exactly when its quantity and rate
/// are above zero, its cost base and LPR expenditure are not negative, the
/// death is on or after 20 September 1985, the deceased's acquisition date is
/// recorded exactly under the `DeceasedCostBase` rule and is then neither
/// before CGT nor after the death, LPR expenditure is only on an AUD
/// inheritance (any case), and a non-zero LPR expenditure is dated, on or
/// after the death, exactly when it is non-zero.
pub proof fn lemma_inheritance_rules(inh: Inheritance)
    ensures
        spec_validate(inh) is Ok <==> {
            let cgt = Date { year: 1985, month: 9, day: 20 };
            &&& inh.quantity.units() > 0
            &&& inh.cost_base.units() >= 0
            &&& inh.lpr_expenditure.units() >= 0
            &&& inh.fx_rate.units() > 0
            &&& !before(inh.date_of_death, cgt)
            &&& (inh.cost_base_rule == CostBaseRule::DeceasedCostBase)
                == inh.deceased_acquisition_date is Some
            &&& inh.deceased_acquisition_date matches Some(a) ==> !before(a, cgt) && !before(
                inh.date_of_death,
                a,
            )
            &&& inh.lpr_expenditure.units() != 0 ==> eq_ignoring_ascii_case(inh.currency@, aud())
            &&& inh.lpr_expenditure_date is Some == (inh.lpr_expenditure.units() != 0)
            &&& inh.lpr_expenditure_date matches Some(d) ==> !before(d, inh.date_of_death)
        },
{
}

} // verus!
