//! Decimal money figures as plain values.
//!
//! Every amount the ledger records is a `rust_decimal::Decimal`: a 96-bit
//! magnitude with a sign and a decimal scale of 0 to 28. [`Dec`] holds the same
//! two numbers the decimal itself exposes (`mantissa()` and `scale()`), so the
//! rules can be stated and proved over them, while the arithmetic itself is
//! still done by `rust_decimal` through the wrappers at the end of this file.
//!
//! The mathematical value of a figure is [`Dec::units`]: the figure counted in
//! units of 10^-28, which makes every representable decimal an exact integer.

use vstd::prelude::*;

verus! {

/// 10 to the power `n`.
pub open spec fn pow10(n: nat) -> int
    decreases n,
{
    if n == 0 {
        1
    } else {
        10 * pow10((n - 1) as nat)
    }
}

/// The largest magnitude a decimal's 96-bit mantissa can hold: 2^96 - 1.
pub const MAX_MANTISSA: i128 = 79228162514264337593543950335;

/// The largest decimal scale `rust_decimal` supports.
pub const MAX_SCALE: u32 = 28;

/// Units of 10^-28 in one cent.
pub open spec fn cent_units() -> int {
    pow10(26)
}

/// A decimal figure: `mantissa × 10^-scale`.
#[derive(Clone, Copy, Debug)]
pub struct Dec {
    pub mantissa: i128,
    pub scale: u32,
}

impl Dec {
    /// Representable by `rust_decimal::Decimal`.
    pub open spec fn wf(self) -> bool {
        &&& -MAX_MANTISSA <= self.mantissa <= MAX_MANTISSA
        &&& self.scale <= MAX_SCALE
    }

    /// The figure's value in units of 10^-28.
    pub open spec fn units(self) -> int {
        self.mantissa as int * pow10((MAX_SCALE - self.scale) as nat)
    }

    /// The decimal `mantissa × 10^-scale`.
    pub fn new(mantissa: i128, scale: u32) -> (d: Dec)
        requires
            -MAX_MANTISSA <= mantissa <= MAX_MANTISSA,
            scale <= MAX_SCALE,
        ensures
            d.mantissa == mantissa,
            d.scale == scale,
            d.wf(),
    {
        Dec { mantissa, scale }
    }

    /// The whole number `v` (`Decimal::from(v)`).
    pub fn from_int(v: i64) -> (d: Dec)
        ensures
            d.wf(),
            d.scale == 0,
            d.mantissa == v,
            d.units() == v * pow10(28),
    {
        Dec { mantissa: v as i128, scale: 0 }
    }

    /// `Decimal::ZERO`.
    pub fn zero() -> (d: Dec)
        ensures
            d.wf(),
            d.units() == 0,
            d.mantissa == 0,
            d.scale == 0,
    {
        Dec { mantissa: 0, scale: 0 }
    }

    /// True when the figure is zero (`Decimal::is_zero`).
    pub fn is_zero(&self) -> (b: bool)
        requires
            self.wf(),
        ensures
            b == (self.units() == 0),
    {
        proof {
            lemma_units_sign(*self);
        }
        self.mantissa == 0
    }

    /// True when the figure is below zero (`d < Decimal::ZERO`).
    pub fn is_negative(&self) -> (b: bool)
        requires
            self.wf(),
        ensures
            b == (self.units() < 0),
    {
        proof {
            lemma_units_sign(*self);
        }
        self.mantissa < 0
    }

    /// True when the figure is above zero (`d > Decimal::ZERO`).
    pub fn is_positive(&self) -> (b: bool)
        requires
            self.wf(),
        ensures
            b == (self.units() > 0),
    {
        proof {
            lemma_units_sign(*self);
        }
        self.mantissa > 0
    }

    /// The figure without its sign (`Decimal::abs`): the same magnitude and
    /// scale.
    pub fn abs(&self) -> (d: Dec)
        requires
            self.wf(),
        ensures
            d.wf(),
            d.scale == self.scale,
            d.units() == if self.units() < 0 { -self.units() } else { self.units() },
    {
        proof {
            lemma_units_sign(*self);
            lemma_units_neg(*self);
        }
        if self.mantissa < 0 {
            Dec { mantissa: -self.mantissa, scale: self.scale }
        } else {
            *self
        }
    }

    /// `self < other`, by value.
    pub fn lt(&self, other: &Dec) -> (b: bool)
        requires
            self.wf(),
            other.wf(),
        ensures
            b == (self.units() < other.units()),
    {
        dec_lt(*self, *other)
    }

    /// `self > other`, by value.
    pub fn gt(&self, other: &Dec) -> (b: bool)
        requires
            self.wf(),
            other.wf(),
        ensures
            b == (self.units() > other.units()),
    {
        dec_lt(*other, *self)
    }

    /// `self == other`, by value (`1.0 == 1.00`, as `Decimal`'s own `==`).
    pub fn num_eq(&self, other: &Dec) -> (b: bool)
        requires
            self.wf(),
            other.wf(),
        ensures
            b == (self.units() == other.units()),
    {
        !dec_lt(*self, *other) && !dec_lt(*other, *self)
    }
}

/// An optional figure, representable when present.
pub open spec fn opt_wf(d: Option<Dec>) -> bool {
    d matches Some(x) ==> x.wf()
}

/// 10^n is positive.
pub proof fn lemma_pow10_pos(n: nat)
    ensures
        pow10(n) >= 1,
    decreases n,
{
    if n > 0 {
        lemma_pow10_pos((n - 1) as nat);
    }
}

/// A figure's value has its mantissa's sign.
pub proof fn lemma_units_sign(d: Dec)
    ensures
        (d.units() == 0) == (d.mantissa == 0),
        (d.units() < 0) == (d.mantissa < 0),
        (d.units() > 0) == (d.mantissa > 0),
{
    let p = pow10((MAX_SCALE - d.scale) as nat);
    lemma_pow10_pos((MAX_SCALE - d.scale) as nat);
    let m = d.mantissa as int;
    assert((m * p == 0) == (m == 0)) by (nonlinear_arith)
        requires
            p >= 1,
    ;
    assert((m * p < 0) == (m < 0)) by (nonlinear_arith)
        requires
            p >= 1,
    ;
    assert((m * p > 0) == (m > 0)) by (nonlinear_arith)
        requires
            p >= 1,
    ;
}

/// Negating the mantissa negates the value.
pub proof fn lemma_units_neg(d: Dec)
    requires
        d.wf(),
    ensures
        (Dec { mantissa: (-d.mantissa) as i128, scale: d.scale }).units() == -d.units(),
{
    let p = pow10((MAX_SCALE - d.scale) as nat);
    let m = d.mantissa as int;
    assert((-m) * p == -(m * p)) by (nonlinear_arith);
}

/// What `Decimal::checked_add` returns for two figures, as plain values.
pub uninterp spec fn dec_checked_add(a: Dec, b: Dec) -> Option<Dec>;

/// What `Decimal::checked_sub` returns for two figures, as plain values.
pub uninterp spec fn dec_checked_sub(a: Dec, b: Dec) -> Option<Dec>;

/// What `Decimal::checked_mul` returns for two figures, as plain values.
pub uninterp spec fn dec_checked_mul(a: Dec, b: Dec) -> Option<Dec>;

/// What `Decimal::checked_div` returns for two figures, as plain values.
pub uninterp spec fn dec_checked_div(a: Dec, b: Dec) -> Option<Dec>;

/// A figure of at most two decimal places whose magnitude is at most
/// `k` × 10^18: every amount a statement prints, with room to spare.
pub open spec fn cents_figure(d: Dec, k: int) -> bool {
    &&& d.wf()
    &&& d.scale <= 2
    &&& -k * pow10(46) <= d.units() <= k * pow10(46)
}

/// 10^(m + n) = 10^m × 10^n.
pub proof fn lemma_pow10_add(m: nat, n: nat)
    ensures
        pow10(m + n) == pow10(m) * pow10(n),
    decreases m,
{
    if m > 0 {
        lemma_pow10_add((m - 1) as nat, n);
        assert(pow10(m + n) == 10 * pow10((m - 1 + n) as nat));
        assert(10 * (pow10((m - 1) as nat) * pow10(n)) == (10 * pow10((m - 1) as nat)) * pow10(n))
            by (nonlinear_arith);
    }
}

/// A figure restated at a scale `s` no smaller than its own, scaled back by
/// 10^(28 - s), is its value.
pub proof fn lemma_aligned_units(a: Dec, s: u32)
    requires
        a.scale <= s <= 28,
    ensures
        aligned(a, s) * pow10((28 - s) as nat) == a.units(),
{
    lemma_pow10_add((s - a.scale) as nat, (28 - s) as nat);
    let m = a.mantissa as int;
    let e = pow10((s - a.scale) as nat);
    let p = pow10((28 - s) as nat);
    assert(a.units() == m * (e * p));
    assert((m * e) * p == m * (e * p)) by (nonlinear_arith);
}

/// 10^n is at least 10^k for `k <= n`.
pub proof fn lemma_pow10_monotone(k: nat, n: nat)
    requires
        k <= n,
    ensures
        pow10(k) <= pow10(n),
{
    lemma_pow10_add(k, (n - k) as nat);
    lemma_pow10_pos(k);
    lemma_pow10_pos((n - k) as nat);
    assert(pow10(k) <= pow10(k) * pow10((n - k) as nat)) by (nonlinear_arith)
        requires
            pow10(k) >= 1,
            pow10((n - k) as nat) >= 1,
    ;
}

/// A cents figure restated at a scale of at most 2 is at most `k` × 10^20.
proof fn lemma_cents_aligned_bound(a: Dec, s: u32, k: int)
    requires
        cents_figure(a, k),
        a.scale <= s <= 2,
        k >= 0,
    ensures
        -k * pow10(20) <= aligned(a, s) <= k * pow10(20),
{
    let t: nat = (28 - s) as nat;
    lemma_pow10_add((s - a.scale) as nat, t);
    lemma_pow10_add((t - 26) as nat, 26);
    lemma_pow10_add(20, 26);
    lemma_pow10_pos((t - 26) as nat);
    lemma_pow10_pos(26);
    lemma_pow10_pos(20);
    let m = a.mantissa as int;
    let e = pow10((s - a.scale) as nat);
    let big_p = pow10(t);
    let q = pow10(26);
    let r = pow10(20);
    let x = aligned(a, s);
    assert(x == m * e);
    assert(a.units() == m * (e * big_p));
    assert(x * big_p == a.units()) by (nonlinear_arith)
        requires
            x == m * e,
            a.units() == m * (e * big_p),
    ;
    assert(big_p >= q) by (nonlinear_arith)
        requires
            big_p == pow10((t - 26) as nat) * q,
            pow10((t - 26) as nat) >= 1,
            q >= 1,
    ;
    assert(-k * r <= x <= k * r) by (nonlinear_arith)
        requires
            x * big_p == a.units(),
            -k * (r * q) <= a.units() <= k * (r * q),
            big_p >= q,
            q >= 1,
            k >= 0,
    ;
}

/// Two cents figures add and subtract without rounding: restated at their
/// common scale, both and their sum and difference fit a 96-bit mantissa.
pub proof fn lemma_cents_figures_fit(a: Dec, b: Dec, k: int)
    requires
        cents_figure(a, k),
        cents_figure(b, k),
        0 <= k <= 100,
    ensures
        aligned_fits(a, b, aligned(a, max_scale(a, b)) + aligned(b, max_scale(a, b))),
        aligned_fits(a, b, aligned(a, max_scale(a, b)) - aligned(b, max_scale(a, b))),
{
    let s = max_scale(a, b);
    lemma_cents_aligned_bound(a, s, k);
    lemma_cents_aligned_bound(b, s, k);
    assert(pow10(20) == 100000000000000000000) by {
        reveal_with_fuel(pow10, 21);
    }
}

/// A sum or difference of cents figures, when exact and at a scale of at
/// most 2, is a cents figure of the summed bound.
pub proof fn lemma_cents_result(x: Dec, k: int)
    requires
        x.wf(),
        x.scale <= 2,
        -k * pow10(46) <= x.units() <= k * pow10(46),
    ensures
        cents_figure(x, k),
{
}

/// A cents figure within `k` is one within any larger bound.
pub proof fn lemma_cents_widen(a: Dec, k: int, j: int)
    requires
        cents_figure(a, k),
        k <= j,
    ensures
        cents_figure(a, j),
{
    lemma_pow10_pos(46);
    assert(-j * pow10(46) <= -k * pow10(46)) by (nonlinear_arith)
        requires
            k <= j,
            pow10(46) >= 1,
    ;
    assert(k * pow10(46) <= j * pow10(46)) by (nonlinear_arith)
        requires
            k <= j,
            pow10(46) >= 1,
    ;
}

/// A cents figure is one the crate halves exactly.
pub proof fn lemma_cents_halves_exactly(a: Dec)
    requires
        cents_figure(a, 1),
    ensures
        divides_exactly(a, 2),
{
    let t: nat = (28 - a.scale) as nat;
    lemma_pow10_add((t - 26) as nat, 26);
    lemma_pow10_add(20, 26);
    lemma_pow10_pos((t - 26) as nat);
    lemma_pow10_pos(26);
    let m = a.mantissa as int;
    let big_p = pow10(t);
    let q = pow10(26);
    let r = pow10(20);
    assert(big_p >= q) by (nonlinear_arith)
        requires
            big_p == pow10((t - 26) as nat) * q,
            pow10((t - 26) as nat) >= 1,
            q >= 1,
    ;
    assert(-r <= m <= r) by (nonlinear_arith)
        requires
            m * big_p == a.units(),
            -(r * q) <= a.units() <= r * q,
            big_p >= q,
            q >= 1,
    ;
    assert(pow10(20) == 100000000000000000000) by {
        reveal_with_fuel(pow10, 21);
    }
}

/// The larger of two scales.
pub open spec fn max_scale(a: Dec, b: Dec) -> u32 {
    if a.scale >= b.scale {
        a.scale
    } else {
        b.scale
    }
}

/// A figure's mantissa restated at the larger scale `s`.
pub open spec fn aligned(a: Dec, s: u32) -> int {
    a.mantissa as int * pow10((s - a.scale) as nat)
}

/// Both figures, and `combined` (their aligned sum or difference), fit a
/// 96-bit mantissa at the larger of the two scales: the case in which adding
/// or subtracting them needs no rounding.
pub open spec fn aligned_fits(a: Dec, b: Dec, combined: int) -> bool {
    let s = max_scale(a, b);
    &&& -MAX_MANTISSA <= aligned(a, s) <= MAX_MANTISSA
    &&& -MAX_MANTISSA <= aligned(b, s) <= MAX_MANTISSA
    &&& -MAX_MANTISSA <= combined <= MAX_MANTISSA
}

/// The product of two mantissas fits 96 bits at the combined scale: the case
/// in which multiplying needs no rounding.
pub open spec fn product_fits(a: Dec, b: Dec) -> bool {
    &&& -MAX_MANTISSA <= a.mantissa as int * b.mantissa as int <= MAX_MANTISSA
    &&& a.scale + b.scale <= MAX_SCALE
}

/// `a × b` in units of 10^-28 (exact when the two scales sum to at most 28).
pub open spec fn product_units(a: Dec, b: Dec) -> int {
    a.mantissa as int * b.mantissa as int * pow10((28 - a.scale - b.scale) as nat)
}

/// A product's value is [`product_units`] whether or not a factor is zero.
pub proof fn lemma_product_value(a: Dec, b: Dec, x: Dec)
    requires
        a.scale + b.scale <= 28,
        x.mantissa == a.mantissa * b.mantissa,
        x.scale == (if a.mantissa == 0 || b.mantissa == 0 {
            0
        } else {
            a.scale + b.scale
        }),
    ensures
        x.units() == product_units(a, b),
{
    let am = a.mantissa as int;
    let bm = b.mantissa as int;
    if am == 0 || bm == 0 {
        assert(am * bm == 0) by (nonlinear_arith)
            requires
                am == 0 || bm == 0,
        ;
        assert(x.units() == 0) by (nonlinear_arith)
            requires
                x.mantissa as int == 0,
                x.units() == x.mantissa as int * pow10((28 - x.scale) as nat),
        ;
        assert(product_units(a, b) == 0) by (nonlinear_arith)
            requires
                am * bm == 0,
                product_units(a, b) == am * bm * pow10((28 - a.scale - b.scale) as nat),
        ;
    }
}

/// `r` is `Some` of the exact sum `a + b` whenever that sum needs no
/// rounding.
pub open spec fn exact_when_aligned_sum_fits(a: Dec, b: Dec, r: Option<Dec>) -> bool {
    let s = max_scale(a, b);
    aligned_fits(a, b, aligned(a, s) + aligned(b, s)) ==> (r matches Some(x) && x.units()
        == a.units() + b.units() && x.scale <= s)
}

/// `r` is `Some` of the exact difference `a - b` whenever that difference
/// needs no rounding.
pub open spec fn exact_when_aligned_difference_fits(a: Dec, b: Dec, r: Option<Dec>) -> bool {
    let s = max_scale(a, b);
    aligned_fits(a, b, aligned(a, s) - aligned(b, s)) ==> (r matches Some(x) && x.units()
        == a.units() - b.units() && x.scale <= s)
}

/// `r` is `Some` of the exact product `a × b`, at the summed scale (zero for
/// a zero factor), whenever that product needs no rounding.
pub open spec fn exact_when_product_fits(a: Dec, b: Dec, r: Option<Dec>) -> bool {
    product_fits(a, b) ==> (r matches Some(x) && x.mantissa == a.mantissa * b.mantissa
        && x.scale == (if a.mantissa == 0 || b.mantissa == 0 {
        0
    } else {
        a.scale + b.scale
    }))
}

/// `Decimal::round_dp_with_strategy(2, MidpointAwayFromZero)` on a value in
/// units of 10^-28: to the nearest cent, a half cent away from zero.
pub open spec fn round_cents_units(u: int) -> int {
    let q = cent_units();
    if u >= 0 {
        ((u + q / 2) / q) * q
    } else {
        -(((-u + q / 2) / q) * q)
    }
}

/// A whole number `c` of cents is unchanged by cent-rounding.
proof fn lemma_round_whole_cents(c: int)
    ensures
        round_cents_units(c * cent_units()) == c * cent_units(),
{
    let q = cent_units();
    lemma_pow10_pos(26);
    assert(0 <= q / 2 < q);
    if c >= 0 {
        assert(c * q >= 0) by (nonlinear_arith)
            requires
                c >= 0,
                q >= 1,
        ;
        vstd::arithmetic::div_mod::lemma_fundamental_div_mod_converse_div(
            c * q + q / 2,
            q,
            c,
            q / 2,
        );
    } else {
        assert(c * q < 0) by (nonlinear_arith)
            requires
                c < 0,
                q >= 1,
        ;
        assert(-(c * q) == (-c) * q) by (nonlinear_arith);
        vstd::arithmetic::div_mod::lemma_fundamental_div_mod_converse_div(
            (-c) * q + q / 2,
            q,
            -c,
            q / 2,
        );
        assert(-((-c) * q) == c * q) by (nonlinear_arith);
    }
}

/// Cent-rounding a figure gives the figure's value rounded to the cent, half
/// a cent away from zero.
pub proof fn lemma_round_cents_value(x: Dec)
    requires
        x.wf(),
    ensures
        spec_round_cents(x).units() == round_cents_units(x.units()),
{
    let q = cent_units();
    lemma_pow10_pos(26);
    let m = x.mantissa as int;
    if x.scale <= 2 {
        lemma_pow10_add((2 - x.scale) as nat, 26);
        let e = pow10((2 - x.scale) as nat);
        let c = m * e;
        assert(x.units() == m * (e * q));
        assert(m * (e * q) == c * q) by (nonlinear_arith)
            requires
                c == m * e,
        ;
        lemma_round_whole_cents(c);
    } else {
        let u = x.units();
        let p = pow10((28 - x.scale) as nat);
        lemma_pow10_monotone((28 - x.scale) as nat, 25);
        lemma_pow10_pos((28 - x.scale) as nat);
        assert(q == 10 * pow10(25));
        let au = if u >= 0 {
            u
        } else {
            -u
        };
        assert(0 <= au <= MAX_MANTISSA * pow10(25)) by (nonlinear_arith)
            requires
                u == m * p,
                au == (if u >= 0 {
                    u
                } else {
                    -u
                }),
                -MAX_MANTISSA <= m <= MAX_MANTISSA,
                1 <= p <= pow10(25),
        ;
        let t = (au + q / 2) / q;
        vstd::arithmetic::div_mod::lemma_fundamental_div_mod(au + q / 2, q);
        assert(0 <= (au + q / 2) % q < q);
        assert(0 <= t <= MAX_MANTISSA / 10 + 1) by (nonlinear_arith)
            requires
                au + q / 2 == q * t + (au + q / 2) % q,
                0 <= (au + q / 2) % q < q,
                0 <= au <= MAX_MANTISSA * pow10(25),
                q == 10 * pow10(25),
                pow10(25) >= 1,
                0 <= q / 2 < q,
                t == (au + q / 2) / q,
        ;
        let r = round_cents_units(u);
        let st = if u >= 0 {
            t
        } else {
            -t
        };
        assert(r == st * q) by (nonlinear_arith)
            requires
                r == (if u >= 0 {
                    t * q
                } else {
                    -(t * q)
                }),
                st == (if u >= 0 {
                    t
                } else {
                    -t
                }),
        ;
        vstd::arithmetic::div_mod::lemma_fundamental_div_mod_converse_div(st * q, q, st, 0);
        assert(r / q == st);
    }
}

/// The figure `round_cents` returns: unchanged with at most two decimals,
/// otherwise the cent-rounded value at scale 2.
pub open spec fn spec_round_cents(a: Dec) -> Dec {
    if a.scale <= 2 {
        a
    } else {
        Dec { mantissa: (round_cents_units(a.units()) / cent_units()) as i128, scale: 2 }
    }
}

/// `Decimal::floor` on a value in units of 10^-28: the largest whole number
/// not above it.
pub open spec fn floor_units(u: int) -> int {
    (u / pow10(28)) * pow10(28)
}

/// `rust_decimal`'s ordering: `a < b` by value (`PartialOrd::lt` on the two
/// decimals `a` and `b` stand for). The crate orders decimals numerically,
/// whatever their scales.
#[verifier::external_body]
pub(crate) fn dec_lt(a: Dec, b: Dec) -> (r: bool)
    requires
        a.wf(),
        b.wf(),
    ensures
        r == (a.units() < b.units()),
{
    rust_decimal::Decimal::from_i128_with_scale(a.mantissa, a.scale)
        < rust_decimal::Decimal::from_i128_with_scale(b.mantissa, b.scale)
}

/// `Decimal::checked_add`. Its result is named [`dec_checked_add`]. When both
/// figures and their exact sum fit a 96-bit mantissa at the larger scale, the
/// crate adds the aligned mantissas and returns that sum at that scale (or,
/// when one figure is zero, the other figure unchanged), so the result is
/// exact; beyond that the crate may round or report overflow, which is left
/// unsaid.
#[verifier::external_body]
pub(crate) fn checked_add(a: Dec, b: Dec) -> (r: Option<Dec>)
    requires
        a.wf(),
        b.wf(),
    ensures
        r == dec_checked_add(a, b),
        r matches Some(x) ==> x.wf(),
        exact_when_aligned_sum_fits(a, b, r),
{
    let x = rust_decimal::Decimal::from_i128_with_scale(a.mantissa, a.scale);
    let y = rust_decimal::Decimal::from_i128_with_scale(b.mantissa, b.scale);
    x.checked_add(y).map(|d| Dec { mantissa: d.mantissa(), scale: d.scale() })
}

/// `Decimal::checked_sub`. Its result is named [`dec_checked_sub`]. Exact
/// under the same condition as [`checked_add`], on the aligned difference.
#[verifier::external_body]
pub(crate) fn checked_sub(a: Dec, b: Dec) -> (r: Option<Dec>)
    requires
        a.wf(),
        b.wf(),
    ensures
        r == dec_checked_sub(a, b),
        r matches Some(x) ==> x.wf(),
        exact_when_aligned_difference_fits(a, b, r),
{
    let x = rust_decimal::Decimal::from_i128_with_scale(a.mantissa, a.scale);
    let y = rust_decimal::Decimal::from_i128_with_scale(b.mantissa, b.scale);
    x.checked_sub(y).map(|d| Dec { mantissa: d.mantissa(), scale: d.scale() })
}

/// `Decimal::checked_mul`. Its result is named [`dec_checked_mul`]. A zero
/// factor gives `Decimal::ZERO` (scale 0); otherwise, when the product of the
/// mantissas fits 96 bits and the scales sum to at most 28, the crate returns
/// exactly that product at that scale. Beyond that it may round or report
/// overflow, which is left unsaid.
#[verifier::external_body]
pub(crate) fn checked_mul(a: Dec, b: Dec) -> (r: Option<Dec>)
    requires
        a.wf(),
        b.wf(),
    ensures
        r == dec_checked_mul(a, b),
        r matches Some(x) ==> x.wf(),
        exact_when_product_fits(a, b, r),
{
    let x = rust_decimal::Decimal::from_i128_with_scale(a.mantissa, a.scale);
    let y = rust_decimal::Decimal::from_i128_with_scale(b.mantissa, b.scale);
    x.checked_mul(y).map(|d| Dec { mantissa: d.mantissa(), scale: d.scale() })
}

/// A figure the crate divides exactly by the whole number `d`: `d` divides
/// 10^9, the figure has at most 19 decimal places, and its mantissa is below
/// `d` × 2^66 in magnitude.
pub open spec fn divides_exactly(a: Dec, d: int) -> bool {
    &&& 1 <= d <= 1000000000
    &&& 1000000000int % d == 0
    &&& a.scale <= 19
    &&& -(d * 73786976294838206464) < a.mantissa < d * 73786976294838206464
}

/// `r` is `Some` of exactly `a / d`.
pub open spec fn is_exact_quotient(r: Option<Dec>, a: Dec, d: int) -> bool {
    r matches Some(x) && d * x.units() == a.units()
}

/// The magnitude of `v`.
pub open spec fn abs_int(v: int) -> int {
    if v < 0 {
        -v
    } else {
        v
    }
}

/// `x` is the quotient `a / b` rounded at its last place, which is either the
/// 28th decimal or one of which `x` is more than 10^27 units: the quotient
/// misses the exact one, in units of 10^-28, by at most the larger of one
/// unit and `|x| / 10^27`. Multiplied through by `|b|` and 10^27:
/// `|x·b − a·10^28| · 10^27 <= |b| · max(10^27, |x|)`, all in units.
pub open spec fn quotient_within_rounding(x: Dec, a: Dec, b: Dec) -> bool {
    let miss = abs_int(x.units() * b.units() - a.units() * pow10(28));
    let size = if abs_int(x.units()) > pow10(27) {
        abs_int(x.units())
    } else {
        pow10(27)
    };
    miss * pow10(27) <= abs_int(b.units()) * size
}

/// `a / b` is a whole number whose magnitude fits 96 bits.
pub open spec fn whole_quotient_fits(a: Dec, b: Dec) -> bool {
    &&& b.mantissa != 0
    &&& a.units() % b.units() == 0
    &&& abs_int(a.units() / b.units()) <= MAX_MANTISSA
}

/// The whole quotient `a / b` in units of 10^-28.
pub open spec fn whole_quotient_units(a: Dec, b: Dec) -> int {
    (a.units() / b.units()) * pow10(28)
}

/// `Decimal::checked_div`. Its result is named [`dec_checked_div`]. The crate
/// (`ops/div.rs`) divides the mantissas, then, while a remainder is left,
/// scales the quotient up by powers of ten as long as the scale stays at most
/// 28 and the mantissa fits 96 bits, and when it must stop rounds the last
/// digit to nearest; trailing zeros are stripped after. Said here:
/// - division by zero gives `None`;
/// - a quotient of magnitude at most 2^96 / 10 (`10·|a| <= |b|·MAX_MANTISSA`)
///   does not overflow;
/// - the result is within rounding of the exact quotient
///   ([`quotient_within_rounding`]): it stops with a remainder only at scale
///   28 or at a mantissa above 2^96 / 10, which is more than 10^27;
/// - a whole quotient that fits 96 bits is returned exactly, as the digits
///   run out before precision does;
/// - dividing by a whole number `d` a figure that [`divides_exactly`] by it
///   gives exactly the quotient (on the 32-bit-divisor path a remainder `r`
///   below `d` scales the quotient, below 2^66, by 10^9 without overflow and
///   adds `r × 10^9 / d`, a whole number as `d` divides 10^9).
#[verifier::external_body]
pub(crate) fn checked_div(a: Dec, b: Dec) -> (r: Option<Dec>)
    requires
        a.wf(),
        b.wf(),
    ensures
        r == dec_checked_div(a, b),
        r matches Some(x) ==> x.wf(),
        b.mantissa == 0 ==> r is None,
        b.mantissa != 0 && 10 * abs_int(a.units()) <= abs_int(b.units()) * MAX_MANTISSA ==> r is Some,
        r matches Some(x) ==> quotient_within_rounding(x, a, b),
        whole_quotient_fits(a, b) ==> r is Some,
        r matches Some(x) ==> (whole_quotient_fits(a, b) ==> x.units() == whole_quotient_units(a, b)),
        b.scale == 0 && divides_exactly(a, b.mantissa as int) ==> is_exact_quotient(
            r,
            a,
            b.mantissa as int,
        ),
{
    let x = rust_decimal::Decimal::from_i128_with_scale(a.mantissa, a.scale);
    let y = rust_decimal::Decimal::from_i128_with_scale(b.mantissa, b.scale);
    x.checked_div(y).map(|d| Dec { mantissa: d.mantissa(), scale: d.scale() })
}

/// `Decimal::floor`: the largest whole number not above the figure, at scale
/// zero (a figure already at scale zero comes back unchanged).
#[verifier::external_body]
pub(crate) fn floor(a: Dec) -> (r: Dec)
    requires
        a.wf(),
    ensures
        r.wf(),
        r.scale == 0,
        r.units() == floor_units(a.units()),
{
    let d = rust_decimal::Decimal::from_i128_with_scale(a.mantissa, a.scale).floor();
    Dec { mantissa: d.mantissa(), scale: d.scale() }
}

/// `Decimal::round_dp_with_strategy(2, RoundingStrategy::MidpointAwayFromZero)`:
/// to the cent, half a cent away from zero. A figure with at most two decimals
/// comes back unchanged; any other comes back at scale 2.
#[verifier::external_body]
pub(crate) fn round_cents(a: Dec) -> (r: Dec)
    requires
        a.wf(),
    ensures
        r.wf(),
        r == spec_round_cents(a),
        a.scale > 2 ==> r.units() == round_cents_units(a.units()),
{
    let d = rust_decimal::Decimal::from_i128_with_scale(a.mantissa, a.scale)
        .round_dp_with_strategy(2, rust_decimal::RoundingStrategy::MidpointAwayFromZero);
    Dec { mantissa: d.mantissa(), scale: d.scale() }
}

/// The name of the first figure in `items` that is present and below zero.
pub open spec fn first_negative_in(items: Seq<(&'static str, Option<Dec>)>) -> Option<&'static str>
    decreases items.len(),
{
    if items.len() == 0 {
        None
    } else if items[0].1 matches Some(v) && v.units() < 0 {
        Some(items[0].0)
    } else {
        first_negative_in(items.drop_first())
    }
}

/// No figure in `items` is below zero exactly when none is named.
pub proof fn lemma_first_negative_none(items: Seq<(&'static str, Option<Dec>)>)
    ensures
        (first_negative_in(items) is None) == (forall|i: int|
            0 <= i < items.len() ==> !(#[trigger] items[i].1 matches Some(v) && v.units() < 0)),
    decreases items.len(),
{
    if items.len() > 0 {
        lemma_first_negative_none(items.drop_first());
        assert forall|i: int| 1 <= i < items.len() implies #[trigger] items[i] == items.drop_first()[i
            - 1] by {}
        if first_negative_in(items) is None {
            assert forall|i: int| 0 <= i < items.len() implies !(#[trigger] items[i].1 matches Some(
                v,
            ) && v.units() < 0) by {
                if i > 0 {
                    assert(items[i] == items.drop_first()[i - 1]);
                }
            }
        }
    }
}

/// Name the first figure of `items` that is present and below zero.
pub fn first_negative(items: &Vec<(&'static str, Option<Dec>)>) -> (r: Option<&'static str>)
    requires
        forall|i: int| 0 <= i < items@.len() ==> opt_wf(#[trigger] items@[i].1),
    ensures
        r == first_negative_in(items@),
{
    let n = items.len();
    let mut j: usize = 0;
    assert(items@.subrange(0, n as int) =~= items@);
    while j < n
        invariant
            n == items@.len(),
            j <= n,
            forall|i: int| 0 <= i < items@.len() ==> opt_wf(#[trigger] items@[i].1),
            first_negative_in(items@) == first_negative_in(items@.subrange(j as int, n as int)),
        decreases n - j,
    {
        let (name, value) = items[j];
        assert(items@.subrange(j as int, n as int)[0] == items@[j as int]);
        assert(items@.subrange(j as int, n as int).drop_first() =~= items@.subrange(
            j as int + 1,
            n as int,
        ));
        match value {
            Some(v) => {
                if v.is_negative() {
                    return Some(name);
                }
            },
            None => {},
        }
        j += 1;
    }
    assert(items@.subrange(n as int, n as int) =~= Seq::<(&'static str, Option<Dec>)>::empty());
    None
}

} // verus!
