//! Calendar dates as plain values, and the Australian financial year.
//!
//! The ledger's dates are `chrono::NaiveDate`s; [`Date`] holds the year, month
//! and day the rules read. Dates order chronologically, which for calendar
//! dates is the order of (year, month, day).

use vstd::prelude::*;

verus! {

/// A calendar date.
#[derive(Clone, Copy, Debug, PartialEq, Eq, Structural)]
pub struct Date {
    pub year: i32,
    pub month: u32,
    pub day: u32,
}

/// `a` is strictly before `b`.
pub open spec fn before(a: Date, b: Date) -> bool {
    ||| a.year < b.year
    ||| a.year == b.year && a.month < b.month
    ||| a.year == b.year && a.month == b.month && a.day < b.day
}

/// `a` is on or before `b`.
pub open spec fn on_or_before(a: Date, b: Date) -> bool {
    before(a, b) || a == b
}

/// The Australian financial year a date falls in, named by the calendar year
/// of its 30 June end: 1 July 2023 to 30 June 2024 is the 2024 year.
pub open spec fn spec_tax_year_for(d: Date) -> int {
    if d.month >= 7 {
        d.year + 1
    } else {
        d.year as int
    }
}

impl Date {
    /// Within the range `chrono::NaiveDate` covers, with a month and a day of
    /// the month in their ranges.
    pub open spec fn wf(self) -> bool {
        &&& -262143 <= self.year <= 262142
        &&& 1 <= self.month <= 12
        &&& 1 <= self.day <= 31
    }

    /// The date `year`-`month`-`day`.
    pub fn ymd(year: i32, month: u32, day: u32) -> (d: Date)
        ensures
            d.year == year,
            d.month == month,
            d.day == day,
    {
        Date { year, month, day }
    }

    /// Strictly before `other`.
    pub fn is_before(&self, other: &Date) -> (b: bool)
        ensures
            b == before(*self, *other),
    {
        self.year < other.year || (self.year == other.year && (self.month < other.month || (
        self.month == other.month && self.day < other.day)))
    }

    /// On or before `other`.
    pub fn is_on_or_before(&self, other: &Date) -> (b: bool)
        ensures
            b == on_or_before(*self, *other),
    {
        !other.is_before(self)
    }

    /// The same date as `other`.
    pub fn same(&self, other: &Date) -> (b: bool)
        ensures
            b == (*self == *other),
    {
        self.year == other.year && self.month == other.month && self.day == other.day
    }
}

/// 20 September 1985, the start of capital gains tax. A trade dated before it
/// is pre-CGT and not modelled.
pub fn cgt_start() -> (d: Date)
    ensures
        d == (Date { year: 1985, month: 9, day: 20 }),
{
    Date { year: 1985, month: 9, day: 20 }
}

/// The Australian financial year `d` falls in, identified by the calendar year
/// of its 30 June end.
pub fn tax_year_for(d: Date) -> (y: i32)
    requires
        d.wf(),
    ensures
        y == spec_tax_year_for(d),
{
    if d.month >= 7 {
        d.year + 1
    } else {
        d.year
    }
}

/// Chronological order is a strict total order on dates.
pub proof fn lemma_before_total(a: Date, b: Date)
    ensures
        before(a, b) || before(b, a) || a == b,
        !(before(a, b) && before(b, a)),
        !before(a, a),
{
}

} // verus!
