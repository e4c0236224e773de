//! DRP reinvestment: turning a distribution into a DRP trade, and undoing it.
//!
//! A distribution on a DRP-enrolled holding is reinvested at the plan's price.
//! By default the reinvestable cash (the distribution's net cash plus what the
//! holding's previous reinvestment brought forward) buys whole units and the
//! rest is left over; a plan may instead state the units it allotted, which
//! are then authoritative and cross-checked against the cash to within one
//! unit-step at their stated precision.
//!
//! Enrolment is judged at the distribution's ex date (its entitlement date),
//! inside a half-open enrolment period `[start, end)` of the distribution's own
//! holding account. Reinvestments join a period's chain at its tail, ordered by
//! the DRP trade's `(date, id)`, and an undo may only remove the tail.

use vstd::prelude::*;
use crate::date::{Date, before, on_or_before};
use crate::income::Income;
use crate::money::{
    Dec,
    MAX_MANTISSA,
    abs_int,
    aligned,
    aligned_fits,
    cents_figure,
    checked_add,
    checked_div,
    checked_mul,
    checked_sub,
    dec_checked_add,
    dec_checked_div,
    dec_checked_mul,
    dec_checked_sub,
    floor,
    floor_units,
    lemma_product_value,
    lemma_pow10_pos,
    max_scale,
    opt_wf,
    pow10,
    product_fits,
    product_units,
};
use crate::text::text_eq;
use crate::trade::{NewTrade, TradeType};

verus! {

/// A reinvestment request.
#[derive(Clone, Debug)]
pub struct ReinvestBody {
    /// Per-share price the distribution is reinvested at.
    pub reinvestment_price: Dec,
    /// The plan's stated allotment, authoritative when present.
    pub units: Option<Dec>,
    /// Foreign-per-AUD override for the DRP trade (1 when absent).
    pub fx_rate: Option<Dec>,
    /// The trade date; the distribution's payment date when absent.
    pub date: Option<Date>,
}

impl ReinvestBody {
    pub open spec fn wf(&self) -> bool {
        &&& self.reinvestment_price.wf()
        &&& opt_wf(self.units)
        &&& opt_wf(self.fx_rate)
    }
}

/// Why a reinvestment (or its undo) was refused.
#[derive(Clone, Debug)]
pub enum ReinvestError {
    /// No income row with that id.
    IncomeNotFound,
    /// No enrolment period of the distribution's account covers its
    /// entitlement date (carries the account name, ticker and date).
    NotEnrolled { account: String, ticker: String, date: Date },
    /// The distribution already has a reinvestment trade.
    AlreadyReinvested,
    /// The income row is not a distribution.
    NotADistribution,
    /// The distribution's currency is not the listing's.
    CurrencyMismatch { distribution: String, listing: String },
    /// The reinvestment price is not above zero.
    NonPositivePrice,
    /// The stated units are not above zero.
    NonPositiveUnits,
    /// The stated units at the price miss the reinvestable cash by a whole
    /// unit-step or more.
    UnitsCashMismatch { cost: Dec, available: Dec },
    /// `units × reinvestment_price` cannot be represented.
    UnrepresentableCostBase,
    /// Undo of a distribution with no reinvestment trade.
    NotReinvested,
    /// Undo refused: the DRP trade is drawn on by a Sell allocation or an AMIT
    /// adjustment.
    ReinvestmentConsumed,
    /// Undo refused: a later DRP trade of the same listing and account exists.
    ReinvestmentNotChainTail,
    /// The period already holds a DRP trade dated after this one.
    LaterReinvestmentExists { date: Date, later: Date },
    /// The trade would be dated on or before an executed whole-holding
    /// operation of its listing (carries that rule's explanation).
    BackDatedOverWholeHolding(String),
    /// The quantity re-bases past the representable range (carries that
    /// rule's explanation).
    UnrepresentableRebasedQuantity(String),
}

/// The verdict on the request's own figures.
pub open spec fn spec_check_body(body: ReinvestBody) -> Result<(), ReinvestError> {
    if body.reinvestment_price.units() <= 0 {
        Err(ReinvestError::NonPositivePrice)
    } else if body.units matches Some(u) && u.units() <= 0 {
        Err(ReinvestError::NonPositiveUnits)
    } else {
        Ok(())
    }
}

/// The price must be above zero, and stated units too.
pub fn check_body(body: &ReinvestBody) -> (r: Result<(), ReinvestError>)
    requires
        body.wf(),
    ensures
        r == spec_check_body(*body),
{
    if !body.reinvestment_price.is_positive() {
        return Err(ReinvestError::NonPositivePrice);
    }
    if let Some(units) = body.units {
        if !units.is_positive() {
            return Err(ReinvestError::NonPositiveUnits);
        }
    }
    Ok(())
}

/// The verdict on the distribution itself.
pub open spec fn spec_check_distribution(income: Option<Income>, is_distribution: bool) -> Result<
    (),
    ReinvestError,
> {
    match income {
        None => Err(ReinvestError::IncomeNotFound),
        Some(i) => if i.reinvestment_trade_id is Some {
            Err(ReinvestError::AlreadyReinvested)
        } else if !is_distribution {
            Err(ReinvestError::NotADistribution)
        } else {
            Ok(())
        },
    }
}

/// The distribution must exist, not already be reinvested, and be a
/// distribution (`is_distribution`) rather than some other kind of income.
pub fn check_distribution(income: &Option<Income>, is_distribution: bool) -> (r: Result<
    (),
    ReinvestError,
>)
    ensures
        r == spec_check_distribution(*income, is_distribution),
{
    match income {
        None => Err(ReinvestError::IncomeNotFound),
        Some(i) => {
            if i.reinvestment_trade_id.is_some() {
                return Err(ReinvestError::AlreadyReinvested);
            }
            if !is_distribution {
                return Err(ReinvestError::NotADistribution);
            }
            Ok(())
        },
    }
}

/// An enrolment period of one listing and holding account: enrolled from
/// `start`, until `end` when the holding was unenrolled.
#[derive(Clone, Copy, Debug)]
pub struct EnrolmentPeriod {
    pub start: Date,
    pub end: Option<Date>,
}

/// The half-open period `[start, end)` covers `d` (open-ended without an end).
pub open spec fn spec_covers(p: EnrolmentPeriod, d: Date) -> bool {
    on_or_before(p.start, d) && match p.end {
        None => true,
        Some(e) => before(d, e),
    }
}

/// Does the period cover the date?
pub fn covers(p: &EnrolmentPeriod, d: &Date) -> (b: bool)
    ensures
        b == spec_covers(*p, *d),
{
    p.start.is_on_or_before(d) && match &p.end {
        None => true,
        Some(e) => d.is_before(e),
    }
}

/// The first period (in the given order) that covers `d`.
pub fn covering_period(periods: &Vec<EnrolmentPeriod>, d: &Date) -> (r: Option<usize>)
    ensures
        r matches Some(k) ==> k < periods@.len() && spec_covers(periods@[k as int], *d) && forall|
            j: int,
        | 0 <= j < k ==> !spec_covers(#[trigger] periods@[j], *d),
        r is None ==> forall|j: int| 0 <= j < periods@.len() ==> !spec_covers(#[trigger] periods@[j], *d),
{
    let mut k: usize = 0;
    while k < periods.len()
        invariant
            k <= periods@.len(),
            forall|j: int| 0 <= j < k ==> !spec_covers(#[trigger] periods@[j], *d),
        decreases periods@.len() - k,
    {
        if covers(&periods[k], d) {
            return Some(k);
        }
        k += 1;
    }
    None
}

/// A DRP trade's place in its chain: ordered by date, then id.
#[derive(Clone, Copy, Debug)]
pub struct ChainTrade {
    pub date: Date,
    pub id: i64,
}

/// `a` comes after `b` on the chain's `(date, id)` order.
pub open spec fn chain_after(a: ChainTrade, b: ChainTrade) -> bool {
    before(b.date, a.date) || (a.date == b.date && a.id > b.id)
}

/// The date of the earliest trade (by `(date, id)`) dated strictly after
/// `date`: the reinvestment that would have picked a new one's leftover up.
pub open spec fn is_earliest_later(trades: Seq<ChainTrade>, date: Date, k: int) -> bool {
    &&& 0 <= k < trades.len()
    &&& before(date, trades[k].date)
    &&& forall|j: int|
        0 <= j < trades.len() && before(date, #[trigger] trades[j].date) ==> !chain_after(
            trades[k],
            trades[j],
        )
}

/// The date of the period's first DRP trade dated strictly after `date`, by
/// `(date, id)`; `None` when there is none.
pub fn first_later_date(trades: &Vec<ChainTrade>, date: &Date) -> (r: Option<Date>)
    ensures
        r is None <==> forall|j: int| 0 <= j < trades@.len() ==> !before(*date, #[trigger] trades@[j].date),
        r matches Some(d) ==> exists|k: int| is_earliest_later(trades@, *date, k) && trades@[k].date == d,
{
    let mut best: Option<usize> = None;
    let mut j: usize = 0;
    while j < trades.len()
        invariant
            j <= trades@.len(),
            best is None ==> forall|i: int| 0 <= i < j ==> !before(*date, #[trigger] trades@[i].date),
            best matches Some(k) ==> k < j && before(*date, trades@[k as int].date) && forall|i: int|
                0 <= i < j && before(*date, #[trigger] trades@[i].date) ==> !chain_after(
                    trades@[k as int],
                    trades@[i],
                ),
        decreases trades@.len() - j,
    {
        let t = trades[j];
        if date.is_before(&t.date) {
            match best {
                None => {
                    best = Some(j);
                },
                Some(k) => {
                    let b = trades[k];
                    if t.date.is_before(&b.date) || (t.date.same(&b.date) && t.id < b.id) {
                        best = Some(j);
                    }
                },
            }
        }
        j += 1;
    }
    match best {
        None => None,
        Some(k) => {
            assert(is_earliest_later(trades@, *date, k as int));
            Some(trades[k].date)
        },
    }
}

/// `k` is the latest trade (by `(date, id)`) dated on or before `date`.
pub open spec fn is_latest_prior(trades: Seq<ChainTrade>, date: Date, k: int) -> bool {
    &&& 0 <= k < trades.len()
    &&& on_or_before(trades[k].date, date)
    &&& forall|j: int|
        0 <= j < trades.len() && on_or_before(#[trigger] trades[j].date, date) ==> !chain_after(
            trades[j],
            trades[k],
        )
}

/// The period's most recent DRP trade dated on or before `date`, by
/// `(date, id)`: the trade whose leftover the new reinvestment brings forward.
pub fn latest_prior(trades: &Vec<ChainTrade>, date: &Date) -> (r: Option<usize>)
    ensures
        r is None <==> forall|j: int| 0 <= j < trades@.len() ==> !on_or_before(#[trigger] trades@[j].date, *date),
        r matches Some(k) ==> is_latest_prior(trades@, *date, k as int),
{
    let mut best: Option<usize> = None;
    let mut j: usize = 0;
    while j < trades.len()
        invariant
            j <= trades@.len(),
            best is None ==> forall|i: int| 0 <= i < j ==> !on_or_before(#[trigger] trades@[i].date, *date),
            best matches Some(k) ==> k < j && on_or_before(trades@[k as int].date, *date) && forall|i: int|
                0 <= i < j && on_or_before(#[trigger] trades@[i].date, *date) ==> !chain_after(
                    trades@[i],
                    trades@[k as int],
                ),
        decreases trades@.len() - j,
    {
        let t = trades[j];
        if t.date.is_on_or_before(date) {
            match best {
                None => {
                    best = Some(j);
                },
                Some(k) => {
                    let b = trades[k];
                    if b.date.is_before(&t.date) || (t.date.same(&b.date) && t.id > b.id) {
                        best = Some(j);
                    }
                },
            }
        }
        j += 1;
    }
    best
}

/// `rust_decimal`'s `max(d, 0)`: `d` when above zero, otherwise zero.
pub open spec fn max_zero(d: Dec) -> Dec {
    if d.units() > 0 {
        d
    } else {
        Dec { mantissa: 0, scale: 0 }
    }
}

/// The allotment: `(quantity, leftover)`, or the refusal; `None` where the
/// arithmetic overflows the decimal range.
pub open spec fn spec_allotment(available: Dec, price: Dec, units: Option<Dec>) -> Option<
    Result<(Dec, Dec), ReinvestError>,
> {
    match units {
        Some(u) => match dec_checked_mul(price, u) {
            None => Some(Err(ReinvestError::UnrepresentableCostBase)),
            Some(cost) => match dec_checked_sub(available, cost) {
                None => None,
                Some(diff) => match dec_checked_mul(Dec { mantissa: 1, scale: u.scale }, price) {
                    None => None,
                    Some(step_price) => {
                        let gap = if diff.units() < 0 {
                            -diff.units()
                        } else {
                            diff.units()
                        };
                        if gap >= step_price.units() {
                            Some(Err(ReinvestError::UnitsCashMismatch { cost, available }))
                        } else if u.scale == 0 {
                            Some(Ok((u, max_zero(diff))))
                        } else {
                            Some(Ok((u, Dec { mantissa: 0, scale: 0 })))
                        }
                    },
                },
            },
        },
        None => match dec_checked_div(available, price) {
            None => None,
            Some(q) => {
                let quantity = Dec {
                    mantissa: (floor_units(q.units()) / pow10(28)) as i128,
                    scale: 0,
                };
                match dec_checked_mul(quantity, price) {
                    None => None,
                    Some(spent) => match dec_checked_sub(available, spent) {
                        None => None,
                        Some(leftover) => Some(Ok((quantity, leftover))),
                    },
                }
            },
        },
    }
}

/// One unit at the precision `u` is stated to: `10^-scale`.
pub open spec fn unit_step(u: Dec) -> Dec {
    Dec { mantissa: 1, scale: u.scale }
}

/// What `rust_decimal` returns for `price × units` when the product needs no
/// rounding: the product of the mantissas at the summed scale (zero for a zero
/// factor).
pub open spec fn stated_cost(price: Dec, u: Dec) -> Dec {
    Dec {
        mantissa: (price.mantissa * u.mantissa) as i128,
        scale: if price.mantissa == 0 || u.mantissa == 0 {
            0
        } else {
            (price.scale + u.scale) as u32
        },
    }
}

/// A stated allotment whose cross-check is computed without rounding: the
/// units' cost `price × units` fits a 96-bit mantissa at the summed scale, and
/// the cash less that cost fits one at the larger of their scales.
pub open spec fn stated_allotment_exact(available: Dec, price: Dec, u: Dec) -> bool {
    let cost = stated_cost(price, u);
    let s = max_scale(available, cost);
    &&& product_fits(price, u)
    &&& aligned_fits(available, cost, aligned(available, s) - aligned(cost, s))
}

/// The stated-allotment verdict in exact arithmetic: refused exactly when the
/// units' cost misses the cash by a whole unit-step's price or more;
/// otherwise the units are the quantity, and the leftover is the unspent cash
/// for whole units (never below zero) and zero for units stated to decimals.
pub open spec fn stated_verdict(
    available: Dec,
    price: Dec,
    u: Dec,
    res: Result<(Dec, Dec), ReinvestError>,
) -> bool {
    let diff = available.units() - product_units(price, u);
    let gap = if diff < 0 {
        -diff
    } else {
        diff
    };
    &&& (res is Err) == (gap >= product_units(unit_step(u), price))
    &&& res matches Ok((q, l)) ==> q == u && l.units() == (if u.scale == 0 && diff > 0 {
        diff
    } else {
        0
    })
}

/// A default allotment the crate computes without a wrong whole unit: the
/// price is above zero; the quotient cash / price is at most 2^96 / 10, so it
/// does not overflow; the price plus twenty times the cash is below one grain
/// (10^-s for the larger scale `s` of cash and price), so the quotient's
/// rounding never crosses a whole number; and buying the floor `n / d` of
/// whole units, their cost and the cash less it need no rounding.
pub open spec fn default_allotment_exact(available: Dec, price: Dec) -> bool {
    let n = available.units();
    let d = price.units();
    let grain = pow10((28 - max_scale(available, price)) as nat);
    &&& d > 0
    &&& 10 * abs_int(n) <= d * MAX_MANTISSA
    &&& d + 20 * abs_int(n) < grain * pow10(28)
    &&& stated_allotment_exact(available, price, Dec { mantissa: (n / d) as i128, scale: 0 })
}

/// A figure's value is a multiple of the grain of any scale at least its own.
proof fn lemma_units_grain(a: Dec, s: u32)
    requires
        a.scale <= s <= 28,
    ensures
        a.units() % pow10((28 - s) as nat) == 0,
{
    let g = pow10((28 - s) as nat);
    let e = pow10((s - a.scale) as nat);
    crate::money::lemma_pow10_add((s - a.scale) as nat, (28 - s) as nat);
    lemma_pow10_pos((28 - s) as nat);
    assert(a.units() == (a.mantissa as int * e) * g) by (nonlinear_arith)
        requires
            a.units() == a.mantissa as int * (e * g),
    ;
    vstd::arithmetic::div_mod::lemma_mod_multiples_basic(a.mantissa as int * e, g);
}

/// A quotient `x` (in units `u`) within rounding of `n / d` has the exact
/// quotient's floor, when `n` and `d` are multiples of a grain `g` and
/// `d + 20·|n|` is below `g·u`: a remainder of `n / d` is then at least one
/// grain from either whole number, and the rounding is less than that.
proof fn lemma_rounded_quotient_floor(n: int, d: int, x: int, g: int)
    requires
        d > 0,
        g >= 1,
        n % g == 0,
        d % g == 0,
        abs_int(x * d - n * pow10(28)) * pow10(27) <= d * (if abs_int(x) > pow10(27) {
            abs_int(x)
        } else {
            pow10(27)
        }),
        n % d == 0 ==> x == (n / d) * pow10(28),
        d + 20 * abs_int(n) < g * pow10(28),
    ensures
        x / pow10(28) == n / d,
{
    let u = pow10(28);
    let t = pow10(27);
    assert(u == 10 * t) by {
        reveal_with_fuel(pow10, 2);
    }
    lemma_pow10_pos(27);
    let k = n / d;
    let r = n % d;
    vstd::arithmetic::div_mod::lemma_fundamental_div_mod(n, d);
    assert(0 <= r < d);
    assert(n == d * k + r);
    if r == 0 {
        vstd::arithmetic::div_mod::lemma_div_multiples_vanish(k, u);
        assert(k * u == u * k) by (nonlinear_arith);
    } else {
        // The remainder, and what it lacks of a whole d, are multiples of g.
        let n1 = n / g;
        let d1 = d / g;
        vstd::arithmetic::div_mod::lemma_fundamental_div_mod(n, g);
        vstd::arithmetic::div_mod::lemma_fundamental_div_mod(d, g);
        assert(r == g * (n1 - d1 * k)) by (nonlinear_arith)
            requires
                n == g * n1,
                d == g * d1,
                n == d * k + r,
        ;
        assert(r >= g) by (nonlinear_arith)
            requires
                r == g * (n1 - d1 * k),
                r > 0,
                g >= 1,
        ;
        assert(d - r == g * (d1 - (n1 - d1 * k))) by (nonlinear_arith)
            requires
                d == g * d1,
                r == g * (n1 - d1 * k),
        ;
        assert(d - r >= g) by (nonlinear_arith)
            requires
                d - r == g * (d1 - (n1 - d1 * k)),
                d - r > 0,
                g >= 1,
        ;
        // The rounding is below one grain.
        let e = x * d - n * u;
        let ae = abs_int(e);
        let an = abs_int(n);
        let ax = abs_int(x);
        assert(ae <= 20 * an + d) by {
            if ax > t {
                assert(ae * t <= d * ax);
                assert(d * ax <= an * u + ae) by (nonlinear_arith)
                    requires
                        e == x * d - n * u,
                        ae == abs_int(e),
                        an == abs_int(n),
                        ax == abs_int(x),
                        d > 0,
                        u > 0,
                ;
                assert(ae * (t - 1) <= an * (10 * t)) by (nonlinear_arith)
                    requires
                        ae * t <= d * ax,
                        d * ax <= an * u + ae,
                        u == 10 * t,
                ;
                assert(ae <= 20 * an) by (nonlinear_arith)
                    requires
                        ae * (t - 1) <= an * (10 * t),
                        t >= 2,
                        an >= 0,
                        ae >= 0,
                ;
            } else {
                assert(ae * t <= d * t);
                assert(ae <= d) by (nonlinear_arith)
                    requires
                        ae * t <= d * t,
                        t >= 1,
                ;
            }
        }
        assert(ae < g * u);
        let w = r * u + e;
        assert(x * d == d * (k * u) + w) by (nonlinear_arith)
            requires
                e == x * d - n * u,
                n == d * k + r,
                w == r * u + e,
        ;
        assert(0 < w < d * u) by (nonlinear_arith)
            requires
                w == r * u + e,
                r >= g,
                d - r >= g,
                -(g * u) < e < g * u,
                u > 0,
        ;
        let y = x - k * u;
        assert(d * y == w) by (nonlinear_arith)
            requires
                x * d == d * (k * u) + w,
                y == x - k * u,
        ;
        assert(0 < y < u) by (nonlinear_arith)
            requires
                d * y == w,
                0 < w < d * u,
                d > 0,
        ;
        vstd::arithmetic::div_mod::lemma_div_multiples_vanish_fancy(k, y, u);
        assert(u * k + y == x);
    }
}

/// A positive price of at most six decimals and a mantissa of at most 10^15.
pub open spec fn ordinary_price(price: Dec) -> bool {
    &&& price.wf()
    &&& price.scale <= 6
    &&& 1 <= price.mantissa <= 1000000000000000
}

/// Cents cash (at most two decimals, magnitude at most 6 × 10^18) at a
/// positive price of at most six decimals and a mantissa of at most 10^15 is
/// allotted without a wrong whole unit: whole-share reinvestment of every
/// ordinary distribution buys the floor of cash over price and leaves less
/// than one share's price.
pub proof fn lemma_ordinary_allotment_is_exact(available: Dec, price: Dec)
    requires
        cents_figure(available, 6),
        ordinary_price(price),
    ensures
        default_allotment_exact(available, price),
{
    let n = available.units();
    let d = price.units();
    let pm = price.mantissa as int;
    let ep = pow10((28 - price.scale) as nat);
    let big = pow10(28);
    let t22 = pow10(22);
    assert(t22 == 10000000000000000000000) by {
        reveal_with_fuel(pow10, 23);
    }
    assert(big == 10000000000000000000000000000) by {
        reveal_with_fuel(pow10, 29);
    }
    assert(pow10(46) == 10000000000000000000000000000000000000000000000) by {
        reveal_with_fuel(pow10, 47);
    }
    crate::money::lemma_pow10_monotone(22, (28 - price.scale) as nat);
    crate::money::lemma_pow10_monotone((28 - price.scale) as nat, 28);
    let an = abs_int(n);
    assert(an <= 60000000000000000000000000000000000000000000000);
    assert(t22 <= ep <= big);
    assert(d == pm * ep);
    assert(10000000000000000000000 <= d <= 10000000000000000 * big) by (nonlinear_arith)
        requires
            d == pm * ep,
            1 <= pm <= 1000000000000000,
            10000000000000000000000 <= ep <= big,
            big == 10000000000000000000000000000,
    ;
    assert(10 * an <= d * MAX_MANTISSA) by (nonlinear_arith)
        requires
            an <= 60000000000000000000000000000000000000000000000,
            10000000000000000000000 <= d,
    ;
    let s = max_scale(available, price);
    let grain = pow10((28 - s) as nat);
    crate::money::lemma_pow10_monotone(22, (28 - s) as nat);
    assert(d + 20 * an < grain * big) by (nonlinear_arith)
        requires
            an <= 60000000000000000000000000000000000000000000000,
            d <= 10000000000000000 * big,
            big == 10000000000000000000000000000,
            10000000000000000000000 <= grain,
    ;
    // The whole units, their cost and what is left fit 96 bits.
    let k = n / d;
    vstd::arithmetic::div_mod::lemma_fundamental_div_mod(n, d);
    assert(abs_int(k) * d <= an + d) by (nonlinear_arith)
        requires
            n == d * k + n % d,
            0 <= n % d < d,
            an == abs_int(n),
            d > 0,
    ;
    assert(abs_int(k) * d <= 70000000000000000000000000000000000000000000000);
    assert(abs_int(k) <= 7000000000000000000000000) by (nonlinear_arith)
        requires
            abs_int(k) * d <= 70000000000000000000000000000000000000000000000,
            10000000000000000000000 <= d,
    ;
    let u = Dec { mantissa: k as i128, scale: 0 };
    assert(u.mantissa as int == k);
    assert(abs_int(pm * k) * ep == abs_int(k) * d) by (nonlinear_arith)
        requires
            d == pm * ep,
            pm >= 1,
            ep >= 1,
    ;
    assert(abs_int(pm * k) <= 7000000000000000000000000) by (nonlinear_arith)
        requires
            abs_int(pm * k) * ep == abs_int(k) * d,
            abs_int(k) * d <= 70000000000000000000000000000000000000000000000,
            10000000000000000000000 <= ep,
    ;
    assert(product_fits(price, u));
    let cost = stated_cost(price, u);
    assert(cost.units() == k * d) by {
        if pm * k == 0 {
            assert(k == 0) by (nonlinear_arith)
                requires
                    pm * k == 0,
                    pm >= 1,
            ;
            assert(k * d == 0) by (nonlinear_arith)
                requires
                    k == 0,
            ;
            assert(cost.mantissa == 0);
            crate::money::lemma_units_sign(cost);
        } else {
            assert(k != 0) by (nonlinear_arith)
                requires
                    pm * k != 0,
            ;
            assert(cost.mantissa as int == pm * k);
            assert(cost.scale == price.scale);
            assert(cost.units() == (pm * k) * ep);
            assert((pm * k) * ep == k * d) by (nonlinear_arith)
                requires
                    d == pm * ep,
            ;
        }
    }
    let sc = max_scale(available, cost);
    let back = pow10((28 - sc) as nat);
    crate::money::lemma_pow10_monotone(22, (28 - sc) as nat);
    crate::money::lemma_aligned_units(available, sc);
    crate::money::lemma_aligned_units(cost, sc);
    let aa = aligned(available, sc);
    let ac = aligned(cost, sc);
    assert(abs_int(aa) <= 6000000000000000000000000) by (nonlinear_arith)
        requires
            aa * back == n,
            abs_int(n) <= 60000000000000000000000000000000000000000000000,
            10000000000000000000000 <= back,
    ;
    assert(abs_int(ac) <= 7000000000000000000000000) by (nonlinear_arith)
        requires
            ac * back == k * d,
            abs_int(k) * d <= 70000000000000000000000000000000000000000000000,
            10000000000000000000000 <= back,
            d > 0,
    ;
}

/// How many units the reinvestable cash `available` buys at `price`, and what
/// it leaves over.
///
/// With stated `units` (a plan's statement): they are the quantity, their cost
/// `units × price` must agree with the cash to within one unit-step at their
/// stated precision (`10^-scale × price`), and the leftover is the unspent cash
/// for whole units (never below zero) but zero for units stated to decimals
/// (a rounded allotment spent all the cash). Without: the cash buys whole units
/// (`floor(available / price)`) and the exact remainder is left over.
///
/// `None` where the arithmetic overflows the decimal range. For stated units
/// whose cross-check is [`stated_allotment_exact`] no step rounds, and the
/// verdict is the exact-arithmetic one of [`stated_verdict`]; for a default
/// allotment that is [`default_allotment_exact`] (which cents cash at any
/// price of at most six decimals and a mantissa of at most 10^15 is, see
/// [`lemma_ordinary_allotment_is_exact`]) the units are the floor of cash
/// over price and the leftover is at least zero and below the price.
pub fn allotment(available: Dec, price: Dec, units: Option<Dec>) -> (r: Option<
    Result<(Dec, Dec), ReinvestError>,
>)
    requires
        available.wf(),
        price.wf(),
        opt_wf(units),
    ensures
        r == spec_allotment(available, price, units),
        r matches Some(Ok((q, l))) ==> q.wf() && l.wf(),
        r matches Some(Ok((q, _))) ==> (units matches Some(u) ==> q == u),
        r matches Some(Ok((_, l))) ==> (units matches Some(u) ==> (u.scale > 0 ==> l.units()
            == 0)),
        r matches Some(Ok((q, _))) ==> (units is None ==> q.scale == 0),
        units matches Some(u) ==> (stated_allotment_exact(available, price, u) ==> (r matches Some(
            res,
        ) && stated_verdict(available, price, u, res))),
        units is None && default_allotment_exact(available, price) ==> (r matches Some(Ok((q, l)))
            && q.scale == 0 && q.mantissa == available.units() / price.units() && l.units()
            == available.units() - q.mantissa * price.units() && 0 <= l.units() < price.units()),
{
    match units {
        Some(u) => {
            let ghost in_range = stated_allotment_exact(available, price, u);
            let cost = match checked_mul(price, u) {
                None => {
                    return Some(Err(ReinvestError::UnrepresentableCostBase));
                },
                Some(cost) => cost,
            };
            proof {
                if in_range {
                    lemma_product_value(price, u, cost);
                    assert(cost == stated_cost(price, u));
                    assert(product_fits(unit_step(u), price)) by {
                        assert(1 * price.mantissa == price.mantissa);
                    }
                }
            }
            let diff = match checked_sub(available, cost) {
                None => {
                    return None;
                },
                Some(diff) => diff,
            };
            let step_price = match checked_mul(Dec::new(1, u.scale), price) {
                None => {
                    return None;
                },
                Some(step_price) => step_price,
            };
            proof {
                if in_range {
                    lemma_product_value(unit_step(u), price, step_price);
                }
            }
            let gap = diff.abs();
            if !gap.lt(&step_price) {
                return Some(Err(ReinvestError::UnitsCashMismatch { cost, available }));
            }
            if u.scale == 0 {
                let leftover = if diff.is_positive() {
                    diff
                } else {
                    Dec::zero()
                };
                Some(Ok((u, leftover)))
            } else {
                Some(Ok((u, Dec::zero())))
            }
        },
        None => {
            proof {
                if default_allotment_exact(available, price) {
                    crate::money::lemma_units_sign(price);
                    vstd::arithmetic::div_mod::lemma_fundamental_div_mod(
                        available.units(),
                        price.units(),
                    );
                }
            }
            match checked_div(available, price) {
            None => {
                assert(!default_allotment_exact(available, price));
                None
            },
            Some(q) => {
                let quantity = floor(q);
                proof {
                    crate::money::lemma_pow10_pos(28);
                    assert(quantity.units() == quantity.mantissa * pow10(28));
                    lemma_div_cancel(quantity.mantissa as int, pow10(28));
                }
                let ghost exact = default_allotment_exact(available, price);
                proof {
                    if exact {
                        let big = pow10(28);
                        let m = quantity.mantissa as int;
                        let k = q.units() / big;
                        assert(m == k) by (nonlinear_arith)
                            requires
                                m * big == k * big,
                                big >= 1,
                        ;
                        let g = pow10((28 - max_scale(available, price)) as nat);
                        lemma_pow10_pos((28 - max_scale(available, price)) as nat);
                        lemma_units_grain(available, max_scale(available, price));
                        lemma_units_grain(price, max_scale(available, price));
                        let n = available.units();
                        let d = price.units();
                        if n % d == 0 {
                            vstd::arithmetic::div_mod::lemma_fundamental_div_mod(n, d);
                            let k2 = n / d;
                            assert(abs_int(k2) <= MAX_MANTISSA) by (nonlinear_arith)
                                requires
                                    n == d * k2,
                                    d > 0,
                                    10 * abs_int(n) <= d * MAX_MANTISSA,
                            ;
                            assert(price.mantissa != 0) by {
                                crate::money::lemma_units_sign(price);
                            }
                            assert(crate::money::whole_quotient_fits(available, price));
                        }
                        lemma_rounded_quotient_floor(n, d, q.units(), g);
                        assert(quantity == (Dec {
                            mantissa: (available.units() / price.units()) as i128,
                            scale: 0,
                        }));
                        assert(quantity.mantissa * price.mantissa == price.mantissa
                            * quantity.mantissa) by (nonlinear_arith);
                        assert(product_fits(quantity, price));
                    }
                }
                match checked_mul(quantity, price) {
                    None => {
                        assert(!exact);
                        None
                    },
                    Some(spent) => {
                        proof {
                            if exact {
                                lemma_product_value(quantity, price, spent);
                                assert(spent == stated_cost(price, quantity));
                                let m = quantity.mantissa as int;
                                let pm = price.mantissa as int;
                                let e = pow10((28 - price.scale) as nat);
                                assert(spent.units() == m * price.units()) by (nonlinear_arith)
                                    requires
                                        spent.units() == m * pm * e,
                                        price.units() == pm * e,
                                ;
                            }
                        }
                        match checked_sub(available, spent) {
                            None => {
                                assert(!exact);
                                None
                            },
                            Some(leftover) => {
                                proof {
                                    if exact {
                                        assert(leftover.units() == available.units()
                                            - spent.units());
                                        assert(quantity.mantissa == available.units()
                                            / price.units());
                                        let m = quantity.mantissa as int;
                                        let d = price.units();
                                        assert(m * d == d * m) by (nonlinear_arith);
                                        assert(0 <= leftover.units() < price.units());
                                    }
                                }
                                Some(Ok((quantity, leftover)))
                            },
                        }
                    },
                }
            },
            }
        },
    }
}

proof fn lemma_div_cancel(m: int, p: int)
    requires
        p >= 1,
    ensures
        (m * p) / p == m,
{
    assert((m * p) / p == m) by (nonlinear_arith)
        requires
            p >= 1,
    ;
}

/// What a reinvestment will write, once every check has passed.
#[derive(Clone, Debug)]
pub struct ReinvestPlan {
    /// The covering enrolment period (an index into the periods given).
    pub period: usize,
    /// The DRP trade's date (and settlement date).
    pub date: Date,
    /// The reinvestable cash: the distribution's net cash plus the residual
    /// brought forward.
    pub available: Dec,
    /// The units the trade takes.
    pub quantity: Dec,
    /// The cash the allotment did not spend.
    pub leftover: Dec,
    /// The trade's foreign-per-AUD rate.
    pub fx_rate: Dec,
}

/// Everything the reinvestment decision reads besides the request.
#[derive(Clone, Debug)]
pub struct ReinvestFacts {
    /// The distribution, `None` when there is no such row.
    pub income: Option<Income>,
    /// The row is a distribution (not employment or other income).
    pub is_distribution: bool,
    /// The enrolment periods of the distribution's listing and account.
    pub periods: Vec<EnrolmentPeriod>,
    /// The account's and the listing's names, for a refusal.
    pub account_name: String,
    pub ticker: String,
    /// The listing's currency.
    pub listing_currency: String,
    /// The whole-holding rule's refusal of the trade date, if it refuses.
    pub back_dated: Option<String>,
    /// The DRP trades already in the covering period.
    pub period_trades: Vec<ChainTrade>,
    /// What the covering period's chain brings forward into a trade at the
    /// tail (zero when the period holds no prior trade).
    pub residual_brought_forward: Dec,
}

impl ReinvestFacts {
    pub open spec fn wf(&self) -> bool {
        &&& self.income matches Some(i) ==> i.wf()
        &&& self.residual_brought_forward.wf()
    }
}

/// The date the DRP trade will carry: the request's, else the payment date.
pub open spec fn spec_trade_date(body: ReinvestBody, i: Income) -> Date {
    match body.date {
        Some(d) => d,
        None => i.date_paid,
    }
}

/// The first period (by index) that covers `d`.
pub open spec fn is_first_covering(periods: Seq<EnrolmentPeriod>, d: Date, k: int) -> bool {
    &&& 0 <= k < periods.len()
    &&& spec_covers(periods[k], d)
    &&& forall|j: int| 0 <= j < k ==> !spec_covers(#[trigger] periods[j], d)
}

/// At most one period is the first to cover a date.
pub proof fn lemma_first_covering_unique(periods: Seq<EnrolmentPeriod>, d: Date, a: int, b: int)
    requires
        is_first_covering(periods, d, a),
        is_first_covering(periods, d, b),
    ensures
        a == b,
{
    if a < b {
        assert(!spec_covers(periods[a], d));
    }
    if b < a {
        assert(!spec_covers(periods[b], d));
    }
}

/// The earliest later trade's date does not depend on which earliest trade is
/// picked.
pub proof fn lemma_earliest_later_date_unique(trades: Seq<ChainTrade>, date: Date, a: int, b: int)
    requires
        is_earliest_later(trades, date, a),
        is_earliest_later(trades, date, b),
    ensures
        trades[a].date == trades[b].date,
{
    assert(!chain_after(trades[a], trades[b]));
    assert(!chain_after(trades[b], trades[a]));
    crate::date::lemma_before_total(trades[a].date, trades[b].date);
}

/// The distribution's cash figures and the residual brought forward are
/// cents figures (at most two decimals, magnitude at most 10^18).
pub open spec fn cash_in_cents(facts: ReinvestFacts) -> bool {
    &&& facts.income matches Some(i) && i.cash_figures_in_cents()
    &&& cents_figure(facts.residual_brought_forward, 1)
}

/// The reinvestable cash in exact arithmetic: the distribution's gross cash
/// less its withholdings, plus the residual brought forward.
pub open spec fn reinvestable_units(facts: ReinvestFacts) -> int {
    let i = facts.income.unwrap();
    i.franked_amount.units() + i.unfranked_amount.units() + i.foreign_source_income.units()
        - i.foreign_tax_paid.units() - i.tfn_withholding_tax.units()
        + facts.residual_brought_forward.units()
}

/// The whole verdict on a reinvestment, in the order the checks are made;
/// `None` where the arithmetic overflows the decimal range.
pub open spec fn spec_plan_reinvestment(body: ReinvestBody, facts: ReinvestFacts) -> Option<
    Result<ReinvestPlan, ReinvestError>,
> {
    match spec_check_body(body) {
        Err(e) => Some(Err(e)),
        Ok(()) => match spec_check_distribution(facts.income, facts.is_distribution) {
            Err(e) => Some(Err(e)),
            Ok(()) => spec_plan_for_distribution(body, facts, facts.income.unwrap()),
        },
    }
}

/// The verdict once the request and the distribution have passed their own
/// checks.
pub open spec fn spec_plan_for_distribution(
    body: ReinvestBody,
    facts: ReinvestFacts,
    i: Income,
) -> Option<Result<ReinvestPlan, ReinvestError>> {
    let entitled = i.spec_ex_or_pay_date();
    let date = spec_trade_date(body, i);
    match i.spec_net_cash_received() {
        None => None,
        Some(cash) => if !(exists|k: int| is_first_covering(facts.periods@, entitled, k)) {
            Some(
                Err(
                    ReinvestError::NotEnrolled {
                        account: facts.account_name,
                        ticker: facts.ticker,
                        date: entitled,
                    },
                ),
            )
        } else if i.currency@ != facts.listing_currency@ {
            Some(
                Err(
                    ReinvestError::CurrencyMismatch {
                        distribution: i.currency,
                        listing: facts.listing_currency,
                    },
                ),
            )
        } else if facts.back_dated is Some {
            Some(Err(ReinvestError::BackDatedOverWholeHolding(facts.back_dated.unwrap())))
        } else if exists|k: int| is_earliest_later(facts.period_trades@, date, k) {
            let k = choose|k: int| is_earliest_later(facts.period_trades@, date, k);
            Some(
                Err(
                    ReinvestError::LaterReinvestmentExists {
                        date,
                        later: facts.period_trades@[k].date,
                    },
                ),
            )
        } else {
            match dec_checked_add(cash, facts.residual_brought_forward) {
                None => None,
                Some(available) => match spec_allotment(
                    available,
                    body.reinvestment_price,
                    body.units,
                ) {
                    None => None,
                    Some(Err(e)) => Some(Err(e)),
                    Some(Ok((quantity, leftover))) => Some(
                        Ok(
                            ReinvestPlan {
                                period: (choose|k: int|
                                    is_first_covering(facts.periods@, entitled, k)) as usize,
                                date,
                                available,
                                quantity,
                                leftover,
                                fx_rate: match body.fx_rate {
                                    Some(f) => f,
                                    None => Dec { mantissa: 1, scale: 0 },
                                },
                            },
                        ),
                    ),
                },
            }
        },
    }
}

/// Decide a reinvestment from the request and the facts read for it.
///
/// In order: the price (and stated units) must be above zero; the distribution
/// must exist, be unreinvested and be a distribution; an enrolment period of
/// its account must cover its entitlement date (the ex date, else a trust
/// row's entitlement date, else the payment date); it must be in the listing's
/// currency; the trade date (the request's, else the payment date) must not be
/// refused by the whole-holding rule, and no DRP trade of the period may be
/// dated after it (the earliest such is named). Then the distribution's net
/// cash plus the residual brought forward is allotted by [`allotment`].
///
/// `None` where the arithmetic overflows the decimal range.
pub fn plan_reinvestment(body: &ReinvestBody, facts: &ReinvestFacts) -> (r: Option<
    Result<ReinvestPlan, ReinvestError>,
>)
    requires
        body.wf(),
        facts.wf(),
    ensures
        r == spec_plan_reinvestment(*body, *facts),
        r matches Some(Ok(plan)) ==> is_first_covering(
            facts.periods@,
            facts.income.unwrap().spec_ex_or_pay_date(),
            plan.period as int,
        ) && (forall|j: int|
            0 <= j < facts.period_trades@.len() ==> !before(
                plan.date,
                #[trigger] facts.period_trades@[j].date,
            )),
        r matches Some(Ok(plan)) ==> (cash_in_cents(*facts) ==> plan.available.units()
            == reinvestable_units(*facts) && cents_figure(plan.available, 6)),
        r matches Some(Ok(plan)) ==> (body.units is None && default_allotment_exact(
            plan.available,
            body.reinvestment_price,
        ) ==> plan.quantity.scale == 0 && plan.quantity.mantissa == plan.available.units()
            / body.reinvestment_price.units() && plan.leftover.units() == plan.available.units()
            - plan.quantity.mantissa * body.reinvestment_price.units() && 0 <= plan.leftover.units()
            < body.reinvestment_price.units()),
        cash_in_cents(*facts) && body.units is None && ordinary_price(body.reinvestment_price)
            ==> r is Some,
{
    match check_body(body) {
        Err(e) => {
            return Some(Err(e));
        },
        Ok(()) => {},
    }
    match check_distribution(&facts.income, facts.is_distribution) {
        Err(e) => {
            return Some(Err(e));
        },
        Ok(()) => {},
    }
    let i = match &facts.income {
        Some(i) => i,
        None => {
            return None;
        },
    };
    let entitled = i.ex_or_pay_date();
    let date = match body.date {
        Some(d) => d,
        None => i.date_paid,
    };
    let cash = match i.net_cash_received() {
        Some(c) => c,
        None => {
            return None;
        },
    };
    let period = match covering_period(&facts.periods, &entitled) {
        Some(k) => k,
        None => {
            assert(!(exists|k: int| is_first_covering(facts.periods@, entitled, k)));
            return Some(
                Err(
                    ReinvestError::NotEnrolled {
                        account: facts.account_name.clone(),
                        ticker: facts.ticker.clone(),
                        date: entitled,
                    },
                ),
            );
        },
    };
    assert(is_first_covering(facts.periods@, entitled, period as int));
    if !text_eq(i.currency.as_str(), facts.listing_currency.as_str()) {
        return Some(
            Err(
                ReinvestError::CurrencyMismatch {
                    distribution: i.currency.clone(),
                    listing: facts.listing_currency.clone(),
                },
            ),
        );
    }
    if let Some(refusal) = &facts.back_dated {
        return Some(Err(ReinvestError::BackDatedOverWholeHolding(refusal.clone())));
    }
    match first_later_date(&facts.period_trades, &date) {
        Some(later) => {
            proof {
                let k1 = choose|k: int| is_earliest_later(facts.period_trades@, date, k);
                let k2 = choose|k: int|
                    is_earliest_later(facts.period_trades@, date, k)
                        && facts.period_trades@[k].date == later;
                lemma_earliest_later_date_unique(facts.period_trades@, date, k1, k2);
            }
            return Some(Err(ReinvestError::LaterReinvestmentExists { date, later }));
        },
        None => {
            assert(!(exists|k: int| is_earliest_later(facts.period_trades@, date, k)));
        },
    }
    proof {
        if cash_in_cents(*facts) {
            crate::money::lemma_cents_widen(facts.residual_brought_forward, 1, 5);
            crate::money::lemma_cents_figures_fit(cash, facts.residual_brought_forward, 5);
        }
    }
    let available = match checked_add(cash, facts.residual_brought_forward) {
        Some(a) => a,
        None => {
            return None;
        },
    };
    proof {
        if cash_in_cents(*facts) {
            crate::money::lemma_cents_result(available, 6);
            if body.units is None && ordinary_price(body.reinvestment_price) {
                lemma_ordinary_allotment_is_exact(available, body.reinvestment_price);
            }
        }
    }
    match allotment(available, body.reinvestment_price, body.units) {
        None => None,
        Some(Err(e)) => Some(Err(e)),
        Some(Ok((quantity, leftover))) => {
            proof {
                let k = choose|k: int| is_first_covering(facts.periods@, entitled, k);
                lemma_first_covering_unique(facts.periods@, entitled, k, period as int);
            }
            let fx_rate = match body.fx_rate {
                Some(f) => f,
                None => Dec::new(1, 0),
            };
            Some(Ok(ReinvestPlan { period, date, available, quantity, leftover, fx_rate }))
        },
    }
}

/// The DRP trade a planned reinvestment writes, with the residual it brought
/// forward and the cash its allotment left over (which the enrolment period's
/// residual handling places as carried forward or paid out).
#[derive(Clone, Debug)]
pub struct DrpTrade {
    pub trade: NewTrade,
    pub residual_brought_forward: Dec,
    pub leftover: Dec,
}

/// The DRP trade of a reinvestment planned by [`plan_reinvestment`]: the
/// planned quantity at the reinvestment price, dated and settled on the
/// planned date (DRP units are issued by the registry, not market-settled),
/// in the distribution's listing and holding account, in the listing's
/// currency with no brokerage, at the planned rate.
pub fn drp_trade(body: &ReinvestBody, facts: &ReinvestFacts, plan: &ReinvestPlan) -> (t: DrpTrade)
    requires
        facts.income is Some,
    ensures
        t.trade.trade_type == TradeType::Drp,
        t.trade.date == plan.date,
        t.trade.settlement_date == plan.date,
        t.trade.listing_id == facts.income.unwrap().listing_id,
        t.trade.holding_account_id == facts.income.unwrap().holding_account_id,
        t.trade.average_price == body.reinvestment_price,
        t.trade.quantity == plan.quantity,
        t.trade.currency == facts.listing_currency,
        t.trade.brokerage == (Dec { mantissa: 0, scale: 0 }),
        t.trade.gst_on_brokerage == (Dec { mantissa: 0, scale: 0 }),
        t.trade.brokerage_currency == facts.listing_currency,
        t.trade.fx_rate == plan.fx_rate,
        t.trade.ess_statement_id is None,
        t.trade.inheritance_id is None,
        t.trade.deemed_acquisition_date is None,
        t.residual_brought_forward == facts.residual_brought_forward,
        t.leftover == plan.leftover,
{
    let i = facts.income.as_ref().unwrap();
    DrpTrade {
        trade: NewTrade {
            trade_type: TradeType::Drp,
            date: plan.date,
            settlement_date: plan.date,
            listing_id: i.listing_id,
            holding_account_id: i.holding_account_id,
            average_price: body.reinvestment_price,
            quantity: plan.quantity,
            currency: facts.listing_currency.clone(),
            brokerage: Dec::zero(),
            gst_on_brokerage: Dec::zero(),
            brokerage_currency: facts.listing_currency.clone(),
            fx_rate: plan.fx_rate,
            ess_statement_id: None,
            inheritance_id: None,
            deemed_acquisition_date: None,
        },
        residual_brought_forward: facts.residual_brought_forward,
        leftover: plan.leftover,
    }
}

/// A planned reinvestment is dated the request's date, else the
/// distribution's payment date; its rate is the request's, else 1; and on the
/// default path (no stated units) it allots the floor of the reinvestable
/// cash over the price, leaving what that many units do not spend.
pub proof fn lemma_plan_follows_request(body: ReinvestBody, facts: ReinvestFacts, plan: ReinvestPlan)
    requires
        spec_plan_reinvestment(body, facts) == Some(Ok::<ReinvestPlan, ReinvestError>(plan)),
    ensures
        facts.income is Some,
        plan.date == spec_trade_date(body, facts.income.unwrap()),
        plan.fx_rate == (match body.fx_rate {
            Some(f) => f,
            None => Dec { mantissa: 1, scale: 0 },
        }),
        spec_allotment(plan.available, body.reinvestment_price, body.units) == Some(
            Ok::<(Dec, Dec), ReinvestError>((plan.quantity, plan.leftover)),
        ),
{
}

/// A stored income type is that of a distribution (a dividend or trust
/// distribution row), the only kind a DRP reinvests: employment and other
/// income rows are not.
pub fn is_distribution_type(income_type: &str) -> (b: bool)
    ensures
        b == (income_type@ == seq!['D', 'i', 'v', 'i', 'd', 'e', 'n', 'd']),
{
    proof {
        reveal_strlit("Dividend");
        assert("Dividend"@ =~= seq!['D', 'i', 'v', 'i', 'd', 'e', 'n', 'd']);
    }
    text_eq(income_type, "Dividend")
}

/// Some trade of the chain comes after `this` on the `(date, id)` order.
pub open spec fn spec_has_later(trades: Seq<ChainTrade>, this: ChainTrade) -> bool {
    exists|j: int| 0 <= j < trades.len() && chain_after(#[trigger] trades[j], this)
}

/// Does a DRP trade of the same listing and account come after `this` — dated
/// later, or the same day with a higher id?
pub fn has_later(trades: &Vec<ChainTrade>, this: &ChainTrade) -> (b: bool)
    ensures
        b == spec_has_later(trades@, *this),
{
    let mut j: usize = 0;
    while j < trades.len()
        invariant
            j <= trades@.len(),
            forall|i: int| 0 <= i < j ==> !chain_after(#[trigger] trades@[i], *this),
        decreases trades@.len() - j,
    {
        let t = trades[j];
        if this.date.is_before(&t.date) || (t.date.same(&this.date) && t.id > this.id) {
            assert(chain_after(trades@[j as int], *this));
            return true;
        }
        j += 1;
    }
    false
}

/// The verdict on an undo.
pub open spec fn spec_check_unreinvest(
    link: Option<Option<i64>>,
    consumed: bool,
    later_exists: bool,
) -> Result<i64, ReinvestError> {
    match link {
        None => Err(ReinvestError::IncomeNotFound),
        Some(None) => Err(ReinvestError::NotReinvested),
        Some(Some(id)) => if consumed {
            Err(ReinvestError::ReinvestmentConsumed)
        } else if later_exists {
            Err(ReinvestError::ReinvestmentNotChainTail)
        } else {
            Ok(id)
        },
    }
}

/// Decide an undo from the distribution's reinvestment link (`None`: no such
/// row), whether its DRP trade is drawn on, and whether a later DRP trade of
/// the same listing and account exists. `Ok` carries the trade to delete: undo
/// runs last-in-first-out and never orphans a dependant.
pub fn check_unreinvest(link: Option<Option<i64>>, consumed: bool, later_exists: bool) -> (r: Result<
    i64,
    ReinvestError,
>)
    ensures
        r == spec_check_unreinvest(link, consumed, later_exists),
        r matches Ok(id) ==> link == Some(Some(id)) && !consumed && !later_exists,
{
    match link {
        None => Err(ReinvestError::IncomeNotFound),
        Some(None) => Err(ReinvestError::NotReinvested),
        Some(Some(id)) => {
            if consumed {
                return Err(ReinvestError::ReinvestmentConsumed);
            }
            if later_exists {
                return Err(ReinvestError::ReinvestmentNotChainTail);
            }
            Ok(id)
        },
    }
}

/// A distribution is reinvested at most once, and undoing its reinvestment
/// makes it reinvestable again: while the link is set a reinvestment is
/// refused as already made; the undo of a trade that is the chain's tail and
/// that nothing draws on is allowed and names the linked trade; and once the
/// link is cleared the distribution passes the checks on itself again.
pub proof fn lemma_reinvest_once_undo_reopens(i: Income, trade_id: i64)
    requires
        i.reinvestment_trade_id == Some(trade_id),
    ensures
        spec_check_distribution(Some(i), true) == Err::<(), ReinvestError>(
            ReinvestError::AlreadyReinvested,
        ),
        spec_check_unreinvest(Some(Some(trade_id)), false, false) == Ok::<i64, ReinvestError>(
            trade_id,
        ),
        spec_check_distribution(Some(Income { reinvestment_trade_id: None, ..i }), true) is Ok,
{
}

/// A reinvestment request is refused when its price is not above zero or its
/// stated units are not above zero, and only then; a distribution is taken
/// when it exists, has no reinvestment yet and is a distribution, and only
/// then.
pub proof fn lemma_request_and_distribution_rules(
    body: ReinvestBody,
    income: Option<Income>,
    is_distribution: bool,
)
    ensures
        spec_check_body(body) is Ok <==> body.reinvestment_price.units() > 0 && (body.units matches Some(u) ==> u.units() > 0),
        spec_check_distribution(income, is_distribution) is Ok <==> income is Some
            && income.unwrap().reinvestment_trade_id is None && is_distribution,
{
}

} // verus!
