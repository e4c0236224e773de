//! Employee share scheme statements: the Item 12 discount labels, the
//! foreign-source memo, TFN withheld, the taxing point, and the vesting
//! parcel's quantity and market value — and what a statement may say about
//! itself.

use vstd::prelude::*;
pub use crate::text::default_currency;
use crate::date::{Date, before, cgt_start};
use crate::money::{
    Dec,
    cents_figure,
    checked_add,
    checked_mul,
    dec_checked_add,
    dec_checked_mul,
    exact_when_aligned_sum_fits,
    first_negative,
    first_negative_in,
    lemma_cents_figures_fit,
    lemma_cents_result,
    lemma_cents_widen,
    opt_wf,
    round_cents,
    spec_round_cents,
};
use crate::text::{aud, is_aud, opt_view, text_eq};

verus! {

/// One employee share scheme statement.
#[derive(Clone, Debug)]
pub struct EssStatement {
    pub id: i64,
    pub listing_id: i64,
    pub holding_account_id: i64,
    /// The taxing point: the assessable year, and the vest Buy's date.
    pub taxing_point_date: Date,
    /// Shares that vest and their per-share market value.
    pub quantity: Dec,
    pub market_value_per_share: Dec,
    /// Item 12 label D.
    pub taxed_upfront_eligible: Dec,
    /// Item 12 label E.
    pub taxed_upfront_not_eligible: Dec,
    /// Item 12 label F.
    pub deferral_discount: Dec,
    /// Pre-1 July 2009 interests ceasing in the year.
    pub pre_2009_cessation_discount: Dec,
    /// Item 12 label A: the foreign-source part of the discounts (a memo).
    pub foreign_source_discount: Dec,
    /// Item 12 label C.
    pub tfn_withholding: Dec,
    pub currency: String,
    /// The stated foreign-per-AUD fallback rate.
    pub fx_rate: Option<Dec>,
    /// Statement-AUD overrides, one per label.
    pub aud_taxed_upfront_eligible: Option<Dec>,
    pub aud_taxed_upfront_not_eligible: Option<Dec>,
    pub aud_deferral_discount: Option<Dec>,
    pub aud_pre_2009_cessation_discount: Option<Dec>,
    pub aud_foreign_source_discount: Option<Dec>,
    /// The vest Buy's id, derived on read.
    pub vest_trade_id: Option<i64>,
}

/// A statement as a write request states it.
#[derive(Clone, Debug)]
pub struct EssStatementBody {
    pub listing_id: i64,
    pub holding_account_id: i64,
    pub taxing_point_date: Date,
    pub quantity: Dec,
    pub market_value_per_share: Dec,
    pub taxed_upfront_eligible: Dec,
    pub taxed_upfront_not_eligible: Dec,
    pub deferral_discount: Dec,
    pub pre_2009_cessation_discount: Dec,
    pub foreign_source_discount: Dec,
    pub tfn_withholding: Dec,
    pub currency: String,
    pub fx_rate: Option<Dec>,
    pub aud_taxed_upfront_eligible: Option<Dec>,
    pub aud_taxed_upfront_not_eligible: Option<Dec>,
    pub aud_deferral_discount: Option<Dec>,
    pub aud_pre_2009_cessation_discount: Option<Dec>,
    pub aud_foreign_source_discount: Option<Dec>,
}

impl EssStatement {
    /// Every figure is a representable decimal.
    pub open spec fn wf(&self) -> bool {
        &&& self.quantity.wf()
        &&& self.market_value_per_share.wf()
        &&& self.taxed_upfront_eligible.wf()
        &&& self.taxed_upfront_not_eligible.wf()
        &&& self.deferral_discount.wf()
        &&& self.pre_2009_cessation_discount.wf()
        &&& self.foreign_source_discount.wf()
        &&& self.tfn_withholding.wf()
        &&& opt_wf(self.fx_rate)
        &&& opt_wf(self.aud_taxed_upfront_eligible)
        &&& opt_wf(self.aud_taxed_upfront_not_eligible)
        &&& opt_wf(self.aud_deferral_discount)
        &&& opt_wf(self.aud_pre_2009_cessation_discount)
        &&& opt_wf(self.aud_foreign_source_discount)
    }
}

/// Why a statement write was refused.
#[derive(Clone, Debug)]
pub enum UpsertError {
    /// The statement is vested and the edit changes a field its vest Buy came
    /// from.
    Vested,
    /// A statement-AUD override on an AUD statement.
    AudOverrideOnAudStatement,
    /// A stated `fx_rate` that is not above zero.
    FxRateNotPositive,
    /// A stated `fx_rate` on an AUD statement.
    FxRateOnAudStatement,
    /// The statement's currency is not its listing's.
    CurrencyNotListings { statement: String, listing: String },
    /// A negative amount (carries the field name).
    NegativeAmount(&'static str),
    /// The taxing point is before the start of CGT.
    PreCgtTaxingPoint,
    /// Label A exceeds the discount labels it is a memo of.
    ForeignSourceExceedsDiscounts { label: &'static str, foreign: Dec, discounts: Dec },
    /// The discount labels total more than the market value that vests.
    DiscountExceedsMarketValue { discount: Dec, market_value: Dec },
}

/// Round half away from zero to the cent, the way employer statements do.
pub fn to_cents(v: Dec) -> (r: Dec)
    requires
        v.wf(),
    ensures
        r == spec_round_cents(v),
        r.wf(),
{
    round_cents(v)
}

/// D + E + F + G as `rust_decimal` adds them, left to right.
pub open spec fn spec_discount_labels(s: EssStatement) -> Option<Dec> {
    match dec_checked_add(s.taxed_upfront_eligible, s.taxed_upfront_not_eligible) {
        None => None,
        Some(a) => match dec_checked_add(a, s.deferral_discount) {
            None => None,
            Some(b) => dec_checked_add(b, s.pre_2009_cessation_discount),
        },
    }
}

/// The statement's own discount labels D + E + F + G: what the tax summary
/// assesses, and what label A is a memo of. `None` where the sum overflows the
/// decimal range.
pub fn discount_labels(s: &EssStatement) -> (r: Option<Dec>)
    requires
        s.wf(),
    ensures
        r == spec_discount_labels(*s),
        r matches Some(x) ==> x.wf(),
        labels_in_cents(*s) ==> (r matches Some(x) && x.units() == s.taxed_upfront_eligible.units()
            + s.taxed_upfront_not_eligible.units() + s.deferral_discount.units()
            + s.pre_2009_cessation_discount.units()),
{
    let ghost cents = labels_in_cents(*s);
    proof {
        if cents {
            lemma_cents_figures_fit(s.taxed_upfront_eligible, s.taxed_upfront_not_eligible, 1);
        }
    }
    let a = match checked_add(s.taxed_upfront_eligible, s.taxed_upfront_not_eligible) {
        None => {
            return None;
        },
        Some(a) => a,
    };
    proof {
        if cents {
            lemma_cents_result(a, 2);
            lemma_cents_widen(s.deferral_discount, 1, 2);
            lemma_cents_figures_fit(a, s.deferral_discount, 2);
        }
    }
    let b = match checked_add(a, s.deferral_discount) {
        None => {
            return None;
        },
        Some(b) => b,
    };
    proof {
        if cents {
            lemma_cents_result(b, 3);
            lemma_cents_widen(s.pre_2009_cessation_discount, 1, 3);
            lemma_cents_figures_fit(b, s.pre_2009_cessation_discount, 3);
        }
    }
    checked_add(b, s.pre_2009_cessation_discount)
}

/// The four discount labels have at most two decimals and a magnitude of at
/// most 10^18.
pub open spec fn labels_in_cents(s: EssStatement) -> bool {
    &&& cents_figure(s.taxed_upfront_eligible, 1)
    &&& cents_figure(s.taxed_upfront_not_eligible, 1)
    &&& cents_figure(s.deferral_discount, 1)
    &&& cents_figure(s.pre_2009_cessation_discount, 1)
}

/// One step of the AUD-override total: `Some(None)` once the total is
/// unknowable, `None` where an addition overflows.
pub open spec fn aud_step(acc: Option<Option<Dec>>, override_aud: Option<Dec>, label: Dec) -> Option<
    Option<Dec>,
> {
    match acc {
        None => None,
        Some(None) => Some(None),
        Some(Some(sum)) => match override_aud {
            Some(a) => match dec_checked_add(sum, a) {
                None => None,
                Some(x) => Some(Some(x)),
            },
            None => if label.units() == 0 {
                Some(Some(sum))
            } else {
                Some(None)
            },
        },
    }
}

/// The four labels in AUD from the overrides, folded left to right.
pub open spec fn spec_aud_discount_labels(s: EssStatement) -> Option<Option<Dec>> {
    let z = Some(Some(Dec { mantissa: 0, scale: 0 }));
    let a = aud_step(z, s.aud_taxed_upfront_eligible, s.taxed_upfront_eligible);
    let b = aud_step(a, s.aud_taxed_upfront_not_eligible, s.taxed_upfront_not_eligible);
    let c = aud_step(b, s.aud_deferral_discount, s.deferral_discount);
    aud_step(c, s.aud_pre_2009_cessation_discount, s.pre_2009_cessation_discount)
}

fn aud_step_exec(acc: Option<Option<Dec>>, override_aud: Option<Dec>, label: Dec) -> (r: Option<
    Option<Dec>,
>)
    requires
        acc matches Some(Some(x)) ==> x.wf(),
        opt_wf(override_aud),
        label.wf(),
    ensures
        r == aud_step(acc, override_aud, label),
        r matches Some(Some(x)) ==> x.wf(),
        acc matches Some(Some(x)) ==> (override_aud matches Some(a) ==> exact_when_aligned_sum_fits(
            x,
            a,
            dec_checked_add(x, a),
        ) && (dec_checked_add(x, a) matches Some(y) ==> y.wf())),
{
    match acc {
        None => None,
        Some(None) => Some(None),
        Some(Some(sum)) => match override_aud {
            Some(a) => match checked_add(sum, a) {
                None => None,
                Some(x) => Some(Some(x)),
            },
            None => if label.is_zero() {
                Some(Some(sum))
            } else {
                Some(None)
            },
        },
    }
}

/// A label's AUD figure is known: it has an override, or it is itself nil.
pub open spec fn aud_label_known(override_aud: Option<Dec>, label: Dec) -> bool {
    override_aud is Some || label.units() == 0
}

/// What a label adds to the AUD total: its override, else nothing.
pub open spec fn aud_label_units(override_aud: Option<Dec>) -> int {
    match override_aud {
        Some(a) => a.units(),
        None => 0,
    }
}

/// Every discount label's AUD figure is known.
pub open spec fn aud_labels_known(s: EssStatement) -> bool {
    &&& aud_label_known(s.aud_taxed_upfront_eligible, s.taxed_upfront_eligible)
    &&& aud_label_known(s.aud_taxed_upfront_not_eligible, s.taxed_upfront_not_eligible)
    &&& aud_label_known(s.aud_deferral_discount, s.deferral_discount)
    &&& aud_label_known(s.aud_pre_2009_cessation_discount, s.pre_2009_cessation_discount)
}

/// The sum of the four labels' overrides, an absent one counting nothing.
pub open spec fn aud_labels_units(s: EssStatement) -> int {
    aud_label_units(s.aud_taxed_upfront_eligible) + aud_label_units(
        s.aud_taxed_upfront_not_eligible,
    ) + aud_label_units(s.aud_deferral_discount) + aud_label_units(
        s.aud_pre_2009_cessation_discount,
    )
}

/// Every override of a discount label present is a cents figure.
pub open spec fn overrides_in_cents(s: EssStatement) -> bool {
    &&& s.aud_taxed_upfront_eligible matches Some(a) ==> cents_figure(a, 1)
    &&& s.aud_taxed_upfront_not_eligible matches Some(a) ==> cents_figure(a, 1)
    &&& s.aud_deferral_discount matches Some(a) ==> cents_figure(a, 1)
    &&& s.aud_pre_2009_cessation_discount matches Some(a) ==> cents_figure(a, 1)
}

/// One step of the AUD total over cents figures: it never overflows, stays
/// known exactly while every label so far is known, and adds the override.
proof fn lemma_aud_step_in_cents(acc: Option<Option<Dec>>, o: Option<Dec>, label: Dec, j: int)
    requires
        acc is Some,
        1 <= j <= 4,
        acc matches Some(Some(x)) ==> cents_figure(x, j),
        o matches Some(a) ==> cents_figure(a, 1),
        acc matches Some(Some(x)) ==> (o matches Some(a) ==> exact_when_aligned_sum_fits(
            x,
            a,
            dec_checked_add(x, a),
        ) && (dec_checked_add(x, a) matches Some(y) ==> y.wf())),
    ensures
        aud_step(acc, o, label) is Some,
        (aud_step(acc, o, label) matches Some(Some(_))) <==> (acc matches Some(Some(_))
            && aud_label_known(o, label)),
        acc matches Some(Some(x)) ==> (aud_step(acc, o, label) matches Some(Some(y)) ==> y.units()
            == x.units() + aud_label_units(o) && cents_figure(y, j + 1)),
{
    if let Some(Some(x)) = acc {
        if let Some(a) = o {
            lemma_cents_widen(a, 1, j);
            lemma_cents_figures_fit(x, a, j);
            let y = dec_checked_add(x, a).unwrap();
            let p = crate::money::pow10(46);
            assert((j + 1) * p == j * p + p) by (nonlinear_arith);
            assert(-(j + 1) * p == -j * p - p) by (nonlinear_arith);
            assert(y.units() == x.units() + a.units());
            lemma_cents_result(y, j + 1);
        } else {
            lemma_cents_widen(x, j, j + 1);
        }
    }
}

/// The four discount labels in AUD from the statement-AUD overrides, when that
/// total is knowable: an override stands for its label, and an absent one is
/// only known to be nil when its label is nil (`Some(None)` otherwise: the
/// total is not knowable at write time). `None` where an addition overflows
/// the decimal range.
pub fn aud_discount_labels(s: &EssStatement) -> (r: Option<Option<Dec>>)
    requires
        s.wf(),
    ensures
        r == spec_aud_discount_labels(*s),
        r matches Some(Some(x)) ==> x.wf(),
        overrides_in_cents(*s) ==> (r matches Some(v) && (v is Some <==> aud_labels_known(*s)) && (
        v matches Some(x) ==> x.units() == aud_labels_units(*s))),
{
    let z = Some(Some(Dec::zero()));
    let a = aud_step_exec(z, s.aud_taxed_upfront_eligible, s.taxed_upfront_eligible);
    let b = aud_step_exec(a, s.aud_taxed_upfront_not_eligible, s.taxed_upfront_not_eligible);
    let c = aud_step_exec(b, s.aud_deferral_discount, s.deferral_discount);
    let r = aud_step_exec(c, s.aud_pre_2009_cessation_discount, s.pre_2009_cessation_discount);
    proof {
        if overrides_in_cents(*s) {
            crate::money::lemma_pow10_pos(46);
            lemma_aud_step_in_cents(z, s.aud_taxed_upfront_eligible, s.taxed_upfront_eligible, 1);
            lemma_aud_step_in_cents(
                a,
                s.aud_taxed_upfront_not_eligible,
                s.taxed_upfront_not_eligible,
                2,
            );
            lemma_aud_step_in_cents(b, s.aud_deferral_discount, s.deferral_discount, 3);
            lemma_aud_step_in_cents(
                c,
                s.aud_pre_2009_cessation_discount,
                s.pre_2009_cessation_discount,
                4,
            );
        }
    }
    r
}

/// The statement's figures, named, in the order they are checked for a
/// negative.
pub open spec fn amounts(s: EssStatement) -> Seq<(&'static str, Option<Dec>)> {
    seq![
        ("quantity", Some(s.quantity)),
        ("market_value_per_share", Some(s.market_value_per_share)),
        ("taxed_upfront_eligible", Some(s.taxed_upfront_eligible)),
        ("taxed_upfront_not_eligible", Some(s.taxed_upfront_not_eligible)),
        ("deferral_discount", Some(s.deferral_discount)),
        ("pre_2009_cessation_discount", Some(s.pre_2009_cessation_discount)),
        ("foreign_source_discount", Some(s.foreign_source_discount)),
        ("tfn_withholding", Some(s.tfn_withholding)),
        ("aud_taxed_upfront_eligible", s.aud_taxed_upfront_eligible),
        ("aud_taxed_upfront_not_eligible", s.aud_taxed_upfront_not_eligible),
        ("aud_deferral_discount", s.aud_deferral_discount),
        ("aud_pre_2009_cessation_discount", s.aud_pre_2009_cessation_discount),
        ("aud_foreign_source_discount", s.aud_foreign_source_discount),
    ]
}

/// The verdict of [`validate`].
pub open spec fn spec_validate(s: EssStatement) -> Option<Result<(), UpsertError>> {
    if first_negative_in(amounts(s)) is Some {
        Some(Err(UpsertError::NegativeAmount(first_negative_in(amounts(s)).unwrap())))
    } else if before(s.taxing_point_date, Date { year: 1985, month: 9, day: 20 }) {
        Some(Err(UpsertError::PreCgtTaxingPoint))
    } else {
        match spec_discount_labels(s) {
            None => None,
            Some(discounts) => if s.foreign_source_discount.units() > discounts.units() {
                Some(
                    Err(
                        UpsertError::ForeignSourceExceedsDiscounts {
                            label: "foreign_source_discount",
                            foreign: s.foreign_source_discount,
                            discounts,
                        },
                    ),
                )
            } else {
                match spec_aud_discount_labels(s) {
                    None => None,
                    Some(aud_total) => if s.aud_foreign_source_discount matches Some(af)
                        && aud_total matches Some(ad) && af.units() > ad.units() {
                        Some(
                            Err(
                                UpsertError::ForeignSourceExceedsDiscounts {
                                    label: "aud_foreign_source_discount",
                                    foreign: s.aud_foreign_source_discount.unwrap(),
                                    discounts: aud_total.unwrap(),
                                },
                            ),
                        )
                    } else if s.quantity.units() > 0 && s.market_value_per_share.units() > 0 {
                        match dec_checked_mul(s.quantity, s.market_value_per_share) {
                            None => None,
                            Some(market_value) => if spec_round_cents(discounts).units()
                                > spec_round_cents(market_value).units() {
                                Some(
                                    Err(
                                        UpsertError::DiscountExceedsMarketValue {
                                            discount: discounts,
                                            market_value,
                                        },
                                    ),
                                )
                            } else {
                                Some(Ok(()))
                            },
                        }
                    } else {
                        Some(Ok(()))
                    },
                }
            },
        }
    }
}

/// No figure of the statement is negative (its own figures, and the AUD
/// overrides it states).
pub open spec fn figures_non_negative(s: EssStatement) -> bool {
    &&& s.quantity.units() >= 0
    &&& s.market_value_per_share.units() >= 0
    &&& s.taxed_upfront_eligible.units() >= 0
    &&& s.taxed_upfront_not_eligible.units() >= 0
    &&& s.deferral_discount.units() >= 0
    &&& s.pre_2009_cessation_discount.units() >= 0
    &&& s.foreign_source_discount.units() >= 0
    &&& s.tfn_withholding.units() >= 0
    &&& s.aud_taxed_upfront_eligible matches Some(a) ==> a.units() >= 0
    &&& s.aud_taxed_upfront_not_eligible matches Some(a) ==> a.units() >= 0
    &&& s.aud_deferral_discount matches Some(a) ==> a.units() >= 0
    &&& s.aud_pre_2009_cessation_discount matches Some(a) ==> a.units() >= 0
    &&& s.aud_foreign_source_discount matches Some(a) ==> a.units() >= 0
}

/// The four discount labels D + E + F + G, in exact arithmetic.
pub open spec fn all_discount_labels_units(s: EssStatement) -> int {
    s.taxed_upfront_eligible.units() + s.taxed_upfront_not_eligible.units()
        + s.deferral_discount.units() + s.pre_2009_cessation_discount.units()
}

/// Label A is a memo of all four discount labels D, E, F and G: on a
/// statement with no negative figure and a post-CGT taxing point, whose labels
/// add up exactly (`discounts`, as [`discount_labels`] adds cents figures),
/// label A is refused exactly when it exceeds D + E + F + G, and a statement
/// is accepted only when it does not.
pub proof fn lemma_label_a_is_a_memo_of_every_discount_label(s: EssStatement, discounts: Dec)
    requires
        figures_non_negative(s),
        !before(s.taxing_point_date, Date { year: 1985, month: 9, day: 20 }),
        spec_discount_labels(s) == Some(discounts),
        discounts.units() == all_discount_labels_units(s),
    ensures
        (spec_validate(s) matches Some(Err(UpsertError::ForeignSourceExceedsDiscounts { label, .. }))
            && label == "foreign_source_discount") <==> s.foreign_source_discount.units()
            > all_discount_labels_units(s),
        spec_validate(s) == Some(Ok::<(), UpsertError>(())) ==> s.foreign_source_discount.units()
            <= all_discount_labels_units(s),
{
    let items = amounts(s);
    crate::money::lemma_first_negative_none(items);
    assert forall|i: int| 0 <= i < items.len() implies !(#[trigger] items[i].1 matches Some(v)
        && v.units() < 0) by {
        assert(0 <= i < 13);
    }
    reveal_strlit("foreign_source_discount");
    reveal_strlit("aud_foreign_source_discount");
    assert("foreign_source_discount"@.len() != "aud_foreign_source_discount"@.len());
}

/// What a statement may say about itself, decided from the row alone: no
/// negative figure (named, in field order); a taxing point on or after the
/// start of CGT; label A no larger than the discount labels, on the
/// statement's own figures and on the AUD overrides where those pin the
/// total; and, when both the quantity and the per-share market value are
/// positive, the cent-rounded discount no larger than the cent-rounded market
/// value that vests. `None` where the arithmetic overflows the decimal range.
pub fn validate(s: &EssStatement) -> (r: Option<Result<(), UpsertError>>)
    requires
        s.wf(),
    ensures
        r == spec_validate(*s),
        labels_in_cents(*s) && figures_non_negative(*s) && !before(
            s.taxing_point_date,
            Date { year: 1985, month: 9, day: 20 },
        ) ==> (((r matches Some(Err(UpsertError::ForeignSourceExceedsDiscounts {
            label,
            ..
        })) && label == "foreign_source_discount") <==> s.foreign_source_discount.units()
            > all_discount_labels_units(*s)) && (r == Some(Ok::<(), UpsertError>(()))
            ==> s.foreign_source_discount.units() <= all_discount_labels_units(*s))),
{
    let items = vec![
        ("quantity", Some(s.quantity)),
        ("market_value_per_share", Some(s.market_value_per_share)),
        ("taxed_upfront_eligible", Some(s.taxed_upfront_eligible)),
        ("taxed_upfront_not_eligible", Some(s.taxed_upfront_not_eligible)),
        ("deferral_discount", Some(s.deferral_discount)),
        ("pre_2009_cessation_discount", Some(s.pre_2009_cessation_discount)),
        ("foreign_source_discount", Some(s.foreign_source_discount)),
        ("tfn_withholding", Some(s.tfn_withholding)),
        ("aud_taxed_upfront_eligible", s.aud_taxed_upfront_eligible),
        ("aud_taxed_upfront_not_eligible", s.aud_taxed_upfront_not_eligible),
        ("aud_deferral_discount", s.aud_deferral_discount),
        ("aud_pre_2009_cessation_discount", s.aud_pre_2009_cessation_discount),
        ("aud_foreign_source_discount", s.aud_foreign_source_discount),
    ];
    assert(items@ =~= amounts(*s));
    proof {
        if figures_non_negative(*s) {
            let seq_items = amounts(*s);
            crate::money::lemma_first_negative_none(seq_items);
            assert forall|i: int| 0 <= i < seq_items.len() implies !(#[trigger] seq_items[i].1 matches Some(
                v,
            ) && v.units() < 0) by {
                assert(0 <= i < 13);
            }
        }
    }
    if let Some(field) = first_negative(&items) {
        return Some(Err(UpsertError::NegativeAmount(field)));
    }
    if s.taxing_point_date.is_before(&cgt_start()) {
        return Some(Err(UpsertError::PreCgtTaxingPoint));
    }
    let discounts = match discount_labels(s) {
        Some(d) => d,
        None => {
            return None;
        },
    };
    proof {
        if labels_in_cents(*s) && figures_non_negative(*s) {
            lemma_label_a_is_a_memo_of_every_discount_label(*s, discounts);
        }
    }
    if s.foreign_source_discount.gt(&discounts) {
        return Some(
            Err(
                UpsertError::ForeignSourceExceedsDiscounts {
                    label: "foreign_source_discount",
                    foreign: s.foreign_source_discount,
                    discounts,
                },
            ),
        );
    }
    let aud_total = match aud_discount_labels(s) {
        Some(t) => t,
        None => {
            return None;
        },
    };
    if let (Some(aud_foreign), Some(aud_discounts)) = (s.aud_foreign_source_discount, aud_total) {
        if aud_foreign.gt(&aud_discounts) {
            return Some(
                Err(
                    UpsertError::ForeignSourceExceedsDiscounts {
                        label: "aud_foreign_source_discount",
                        foreign: aud_foreign,
                        discounts: aud_discounts,
                    },
                ),
            );
        }
    }
    if s.quantity.is_positive() && s.market_value_per_share.is_positive() {
        let market_value = match checked_mul(s.quantity, s.market_value_per_share) {
            Some(m) => m,
            None => {
                return None;
            },
        };
        if to_cents(discounts).gt(&to_cents(market_value)) {
            return Some(
                Err(UpsertError::DiscountExceedsMarketValue { discount: discounts, market_value }),
            );
        }
    }
    Some(Ok(()))
}

/// The statement states any AUD override.
pub open spec fn has_override(s: EssStatement) -> bool {
    s.aud_taxed_upfront_eligible is Some || s.aud_taxed_upfront_not_eligible is Some
        || s.aud_deferral_discount is Some || s.aud_pre_2009_cessation_discount is Some
        || s.aud_foreign_source_discount is Some
}

/// The verdict of [`check_currency_rules`].
pub open spec fn spec_check_currency_rules(s: EssStatement) -> Result<(), UpsertError> {
    if has_override(s) && s.currency@ == aud() {
        Err(UpsertError::AudOverrideOnAudStatement)
    } else if s.fx_rate matches Some(rate) && rate.units() <= 0 {
        Err(UpsertError::FxRateNotPositive)
    } else if s.fx_rate is Some && s.currency@ == aud() {
        Err(UpsertError::FxRateOnAudStatement)
    } else {
        Ok(())
    }
}

/// An AUD statement takes no AUD override and no rate; a stated rate must be
/// above zero.
pub fn check_currency_rules(s: &EssStatement) -> (r: Result<(), UpsertError>)
    requires
        s.wf(),
    ensures
        r == spec_check_currency_rules(*s),
{
    let has_override = s.aud_taxed_upfront_eligible.is_some()
        || s.aud_taxed_upfront_not_eligible.is_some() || s.aud_deferral_discount.is_some()
        || s.aud_pre_2009_cessation_discount.is_some() || s.aud_foreign_source_discount.is_some();
    let is_aud_statement = is_aud(s.currency.as_str());
    if has_override && is_aud_statement {
        return Err(UpsertError::AudOverrideOnAudStatement);
    }
    if let Some(rate) = s.fx_rate {
        if !rate.is_positive() {
            return Err(UpsertError::FxRateNotPositive);
        }
        if is_aud_statement {
            return Err(UpsertError::FxRateOnAudStatement);
        }
    }
    Ok(())
}

/// The fields the vest Buy was created from are the same on both statements.
pub open spec fn vest_side_unchanged(old: EssStatement, new: EssStatement) -> bool {
    &&& old.listing_id == new.listing_id
    &&& old.holding_account_id == new.holding_account_id
    &&& old.taxing_point_date == new.taxing_point_date
    &&& old.quantity.units() == new.quantity.units()
    &&& old.market_value_per_share.units() == new.market_value_per_share.units()
    &&& old.currency@ == new.currency@
    &&& match (old.fx_rate, new.fx_rate) {
        (None, None) => true,
        (Some(a), Some(b)) => a.units() == b.units(),
        _ => false,
    }
}

fn opt_dec_eq(a: Option<Dec>, b: Option<Dec>) -> (r: bool)
    requires
        opt_wf(a),
        opt_wf(b),
    ensures
        r == match (a, b) {
            (None, None) => true,
            (Some(x), Some(y)) => x.units() == y.units(),
            _ => false,
        },
{
    match (a, b) {
        (None, None) => true,
        (Some(x), Some(y)) => x.num_eq(&y),
        _ => false,
    }
}

/// The verdict of [`check_upsert`].
pub open spec fn spec_check_upsert(
    s: EssStatement,
    listing_currency: Option<String>,
    vested: Option<EssStatement>,
) -> Option<Result<(), UpsertError>> {
    match spec_validate(s) {
        Some(Ok(())) => match spec_check_currency_rules(s) {
            Err(e) => Some(Err(e)),
            Ok(()) => if listing_currency matches Some(l) && l@ != s.currency@ {
                Some(
                    Err(
                        UpsertError::CurrencyNotListings {
                            statement: s.currency,
                            listing: listing_currency.unwrap(),
                        },
                    ),
                )
            } else if vested matches Some(old) && !vest_side_unchanged(old, s) {
                Some(Err(UpsertError::Vested))
            } else {
                Some(Ok(()))
            },
        },
        other => other,
    }
}

/// Decide a statement write: [`validate`], then [`check_currency_rules`], then
/// the statement's currency against its listing's (`listing_currency`, `None`
/// for an unknown listing), then — when the statement is vested (`vested` is
/// its stored row) — the vest side (listing, account, taxing point, quantity,
/// market value, currency, rate) must be unchanged. `None` where the
/// arithmetic overflows the decimal range.
pub fn check_upsert(
    s: &EssStatement,
    listing_currency: &Option<String>,
    vested: &Option<EssStatement>,
) -> (r: Option<Result<(), UpsertError>>)
    requires
        s.wf(),
        vested matches Some(old) ==> old.wf(),
    ensures
        r == spec_check_upsert(*s, *listing_currency, *vested),
{
    match validate(s) {
        Some(Ok(())) => {},
        other => {
            return other;
        },
    }
    if let Err(e) = check_currency_rules(s) {
        return Some(Err(e));
    }
    if let Some(listing) = listing_currency {
        if !text_eq(listing.as_str(), s.currency.as_str()) {
            return Some(
                Err(
                    UpsertError::CurrencyNotListings {
                        statement: s.currency.clone(),
                        listing: listing.clone(),
                    },
                ),
            );
        }
    }
    if let Some(old) = vested {
        let unchanged = old.listing_id == s.listing_id && old.holding_account_id
            == s.holding_account_id && old.taxing_point_date.same(&s.taxing_point_date)
            && old.quantity.num_eq(&s.quantity) && old.market_value_per_share.num_eq(
            &s.market_value_per_share,
        ) && text_eq(old.currency.as_str(), s.currency.as_str()) && opt_dec_eq(
            old.fx_rate,
            s.fx_rate,
        );
        if !unchanged {
            return Some(Err(UpsertError::Vested));
        }
    }
    Some(Ok(()))
}

/// A vested statement is frozen on its vest side only: an edit that keeps the
/// fields its vest Buy was created from is decided exactly as if it were not
/// vested (the income side stays editable), and an edit the statement would
/// otherwise pass that changes one of them is refused as vested.
pub proof fn lemma_vest_freezes_only_the_vest_side(
    s: EssStatement,
    old: EssStatement,
    listing_currency: Option<String>,
)
    ensures
        vest_side_unchanged(old, s) ==> spec_check_upsert(s, listing_currency, Some(old))
            == spec_check_upsert(s, listing_currency, None),
        !vest_side_unchanged(old, s) && spec_check_upsert(s, listing_currency, None) == Some(
            Ok::<(), UpsertError>(()),
        ) ==> spec_check_upsert(s, listing_currency, Some(old)) == Some(
            Err::<(), UpsertError>(UpsertError::Vested),
        ),
{
}

/// The statement a write request describes; the vest link is derived on read
/// and never written.
pub fn statement_from_body(id: i64, body: EssStatementBody) -> (s: EssStatement)
    ensures
        s.id == id,
        s.listing_id == body.listing_id,
        s.holding_account_id == body.holding_account_id,
        s.taxing_point_date == body.taxing_point_date,
        s.quantity == body.quantity,
        s.market_value_per_share == body.market_value_per_share,
        s.taxed_upfront_eligible == body.taxed_upfront_eligible,
        s.taxed_upfront_not_eligible == body.taxed_upfront_not_eligible,
        s.deferral_discount == body.deferral_discount,
        s.pre_2009_cessation_discount == body.pre_2009_cessation_discount,
        s.foreign_source_discount == body.foreign_source_discount,
        s.tfn_withholding == body.tfn_withholding,
        s.currency == body.currency,
        s.fx_rate == body.fx_rate,
        s.aud_taxed_upfront_eligible == body.aud_taxed_upfront_eligible,
        s.aud_taxed_upfront_not_eligible == body.aud_taxed_upfront_not_eligible,
        s.aud_deferral_discount == body.aud_deferral_discount,
        s.aud_pre_2009_cessation_discount == body.aud_pre_2009_cessation_discount,
        s.aud_foreign_source_discount == body.aud_foreign_source_discount,
        s.vest_trade_id is None,
{
    EssStatement {
        id,
        listing_id: body.listing_id,
        holding_account_id: body.holding_account_id,
        taxing_point_date: body.taxing_point_date,
        quantity: body.quantity,
        market_value_per_share: body.market_value_per_share,
        taxed_upfront_eligible: body.taxed_upfront_eligible,
        taxed_upfront_not_eligible: body.taxed_upfront_not_eligible,
        deferral_discount: body.deferral_discount,
        pre_2009_cessation_discount: body.pre_2009_cessation_discount,
        foreign_source_discount: body.foreign_source_discount,
        tfn_withholding: body.tfn_withholding,
        currency: body.currency,
        fx_rate: body.fx_rate,
        aud_taxed_upfront_eligible: body.aud_taxed_upfront_eligible,
        aud_taxed_upfront_not_eligible: body.aud_taxed_upfront_not_eligible,
        aud_deferral_discount: body.aud_deferral_discount,
        aud_pre_2009_cessation_discount: body.aud_pre_2009_cessation_discount,
        aud_foreign_source_discount: body.aud_foreign_source_discount,
        vest_trade_id: None,
    }
}

/// Outcome of a delete request.
#[derive(Clone, Copy, Debug, PartialEq, Eq, Structural)]
pub enum DeleteOutcome {
    Deleted,
    NotFound,
    /// The vest Buy is drawn on by a Sell allocation or AMIT adjustment.
    VestDrawnOn,
}

/// Decide a delete: `exists` whether the statement exists, `vest` its vest
/// Buy if any, `drawn_on` whether that Buy is drawn on. `Deleted` removes the
/// statement together with its vest Buy; a drawn-on vest is never removed.
pub fn delete_outcome(exists: bool, vest: Option<i64>, drawn_on: bool) -> (r: DeleteOutcome)
    ensures
        r == (if !exists {
            DeleteOutcome::NotFound
        } else if vest is Some && drawn_on {
            DeleteOutcome::VestDrawnOn
        } else {
            DeleteOutcome::Deleted
        }),
{
    if !exists {
        DeleteOutcome::NotFound
    } else if vest.is_some() && drawn_on {
        DeleteOutcome::VestDrawnOn
    } else {
        DeleteOutcome::Deleted
    }
}

/// The currency rules: an AUD statement takes no AUD override and no rate, and
/// a stated rate is above zero; nothing else is refused.
pub proof fn lemma_currency_rules(s: EssStatement)
    ensures
        spec_check_currency_rules(s) is Ok <==> {
            &&& s.currency@ == seq!['A', 'U', 'D'] ==> s.fx_rate is None
                && s.aud_taxed_upfront_eligible is None && s.aud_taxed_upfront_not_eligible is None
                && s.aud_deferral_discount is None && s.aud_pre_2009_cessation_discount is None
                && s.aud_foreign_source_discount is None
            &&& s.fx_rate matches Some(r) ==> r.units() > 0
        },
{
}

/// An accepted edit of a vested statement keeps everything its vest Buy was
/// created from: the listing, account, taxing point, the value of its quantity
/// and per-share market value, its currency and its rate; and an accepted
/// statement is in its listing's currency.
pub proof fn lemma_accepted_vested_edit_keeps_the_vest_side(
    s: EssStatement,
    listing_currency: Option<String>,
    old: EssStatement,
)
    ensures
        spec_check_upsert(s, listing_currency, Some(old)) == Some(Ok::<(), UpsertError>(())) ==> {
            &&& old.listing_id == s.listing_id
            &&& old.holding_account_id == s.holding_account_id
            &&& old.taxing_point_date == s.taxing_point_date
            &&& old.quantity.units() == s.quantity.units()
            &&& old.market_value_per_share.units() == s.market_value_per_share.units()
            &&& old.currency@ == s.currency@
            &&& old.fx_rate is Some == s.fx_rate is Some
            &&& old.fx_rate is Some ==> old.fx_rate.unwrap().units() == s.fx_rate.unwrap().units()
            &&& listing_currency is Some ==> listing_currency.unwrap()@ == s.currency@
        },
{
}

} // verus!
