//! Interest income: bank, term-deposit and broker-cash interest, which has no
//! listing and is classified by the payer's source.

use vstd::prelude::*;
pub use crate::text::default_currency;
use crate::date::Date;
use crate::money::Dec;

verus! {

/// One interest payment.
#[derive(Clone, Debug)]
pub struct InterestIncome {
    pub id: i64,
    pub date_paid: Date,
    /// Gross interest, including any amount withheld.
    pub amount: Dec,
    /// TFN amount withheld (Australian-source rows only).
    pub tfn_withholding_tax: Dec,
    /// The payer is foreign.
    pub foreign_source: bool,
    /// Foreign tax withheld (foreign-source rows only).
    pub foreign_tax_paid: Dec,
    pub currency: String,
    pub source: Option<String>,
    pub holding_account_id: Option<i64>,
}

/// An interest row as a write request states it.
#[derive(Clone, Debug)]
pub struct InterestIncomeBody {
    pub date_paid: Date,
    pub amount: Dec,
    pub tfn_withholding_tax: Dec,
    pub foreign_source: bool,
    pub foreign_tax_paid: Dec,
    pub currency: String,
    pub source: Option<String>,
    pub holding_account_id: Option<i64>,
}

impl InterestIncome {
    pub open spec fn wf(&self) -> bool {
        &&& self.amount.wf()
        &&& self.tfn_withholding_tax.wf()
        &&& self.foreign_tax_paid.wf()
    }
}

/// Why an interest write was refused.
#[derive(Clone, Debug)]
pub enum UpsertError {
    /// A negative figure (carries the field name).
    NegativeAmount(&'static str),
    /// Foreign tax on an Australian-source row.
    ForeignTaxOnAustralianSource,
    /// TFN withholding on a foreign-source row.
    TfnWithholdingOnForeignSource,
}

/// The verdict of [`validate`].
pub open spec fn spec_validate(i: InterestIncome) -> Result<(), UpsertError> {
    if i.amount.units() < 0 {
        Err(UpsertError::NegativeAmount("amount"))
    } else if i.tfn_withholding_tax.units() < 0 {
        Err(UpsertError::NegativeAmount("tfn_withholding_tax"))
    } else if i.foreign_tax_paid.units() < 0 {
        Err(UpsertError::NegativeAmount("foreign_tax_paid"))
    } else if !i.foreign_source && i.foreign_tax_paid.units() > 0 {
        Err(UpsertError::ForeignTaxOnAustralianSource)
    } else if i.foreign_source && i.tfn_withholding_tax.units() > 0 {
        Err(UpsertError::TfnWithholdingOnForeignSource)
    } else {
        Ok(())
    }
}

/// No figure may be negative, and withholding must match the source: foreign
/// tax only on a foreign-source row, a TFN amount only on an Australian one.
pub fn validate(i: &InterestIncome) -> (r: Result<(), UpsertError>)
    requires
        i.wf(),
    ensures
        r == spec_validate(*i),
        r is Ok ==> i.amount.units() >= 0 && i.tfn_withholding_tax.units() >= 0
            && i.foreign_tax_paid.units() >= 0 && (i.foreign_source
            ==> i.tfn_withholding_tax.units() == 0) && (!i.foreign_source
            ==> i.foreign_tax_paid.units() == 0),
{
    if i.amount.is_negative() {
        return Err(UpsertError::NegativeAmount("amount"));
    }
    if i.tfn_withholding_tax.is_negative() {
        return Err(UpsertError::NegativeAmount("tfn_withholding_tax"));
    }
    if i.foreign_tax_paid.is_negative() {
        return Err(UpsertError::NegativeAmount("foreign_tax_paid"));
    }
    if !i.foreign_source && i.foreign_tax_paid.is_positive() {
        return Err(UpsertError::ForeignTaxOnAustralianSource);
    }
    if i.foreign_source && i.tfn_withholding_tax.is_positive() {
        return Err(UpsertError::TfnWithholdingOnForeignSource);
    }
    Ok(())
}

/// The row a write request describes.
pub fn interest_from_body(id: i64, body: InterestIncomeBody) -> (i: InterestIncome)
    ensures
        i.id == id,
        i.date_paid == body.date_paid,
        i.amount == body.amount,
        i.tfn_withholding_tax == body.tfn_withholding_tax,
        i.foreign_source == body.foreign_source,
        i.foreign_tax_paid == body.foreign_tax_paid,
        i.currency == body.currency,
        i.source == body.source,
        i.holding_account_id == body.holding_account_id,
{
    InterestIncome {
        id,
        date_paid: body.date_paid,
        amount: body.amount,
        tfn_withholding_tax: body.tfn_withholding_tax,
        foreign_source: body.foreign_source,
        foreign_tax_paid: body.foreign_tax_paid,
        currency: body.currency,
        source: body.source,
        holding_account_id: body.holding_account_id,
    }
}

/// Withholding follows the row's source: a row is accepted exactly when no
/// figure is negative, a foreign-source row carries no TFN withholding and an
/// Australian-source row carries no foreign tax. In particular TFN withholding
/// on an Australian-source row, and foreign tax on a foreign-source row, are
/// accepted.
pub proof fn lemma_withholding_follows_the_source(i: InterestIncome)
    ensures
        spec_validate(i) is Ok <==> {
            &&& i.amount.units() >= 0
            &&& i.tfn_withholding_tax.units() >= 0
            &&& i.foreign_tax_paid.units() >= 0
            &&& i.foreign_source ==> i.tfn_withholding_tax.units() == 0
            &&& !i.foreign_source ==> i.foreign_tax_paid.units() == 0
        },
{
}

} // verus!
