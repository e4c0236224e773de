//! Exchange public holidays, and the calendar-year span a seeded holiday set
//! covers.

use vstd::prelude::*;
use crate::date::{Date, before, lemma_before_total, on_or_before};

verus! {

/// One full-closure non-trading day of an exchange.
#[derive(Clone, Debug)]
pub struct ExchangeHoliday {
    /// Server-assigned surrogate key.
    pub id: i64,
    pub mic: String,
    pub holiday_date: Date,
    /// Informational only.
    pub name: String,
}

/// A holiday as a write request states it (MIC and date come from the path).
#[derive(Clone, Debug)]
pub struct ExchangeHolidayBody {
    pub name: String,
}

/// The holiday a write request describes; its id is assigned by the database.
pub fn holiday_from_body(mic: String, holiday_date: Date, body: ExchangeHolidayBody) -> (h:
    ExchangeHoliday)
    ensures
        h.id == 0,
        h.mic == mic,
        h.holiday_date == holiday_date,
        h.name == body.name,
{
    ExchangeHoliday { id: 0, mic, holiday_date, name: body.name }
}

/// 1 January of `y`.
pub open spec fn jan_1(y: i32) -> Date {
    Date { year: y, month: 1, day: 1 }
}

/// 31 December of `y`.
pub open spec fn dec_31(y: i32) -> Date {
    Date { year: y, month: 12, day: 31 }
}

/// The span implied by the earliest and latest seeded holidays: a published
/// calendar covers its whole year, so from 1 January of the earliest's year to
/// 31 December of the latest's.
pub fn coverage_span_for(earliest: Date, latest: Date) -> (span: (Date, Date))
    ensures
        span == (jan_1(earliest.year), dec_31(latest.year)),
{
    (Date::ymd(earliest.year, 1, 1), Date::ymd(latest.year, 12, 31))
}

/// `k` is the earliest date of `ds`.
pub open spec fn is_earliest(ds: Seq<Date>, k: int) -> bool {
    0 <= k < ds.len() && forall|j: int| 0 <= j < ds.len() ==> on_or_before(ds[k], #[trigger] ds[j])
}

/// `k` is the latest date of `ds`.
pub open spec fn is_latest(ds: Seq<Date>, k: int) -> bool {
    0 <= k < ds.len() && forall|j: int| 0 <= j < ds.len() ==> on_or_before(#[trigger] ds[j], ds[k])
}

/// The calendar-year span a seeded holiday set covers: from 1 January of the
/// earliest holiday's year to 31 December of the latest's; `None` when no
/// holidays are seeded.
pub fn coverage_span(holidays: &Vec<Date>) -> (r: Option<(Date, Date)>)
    ensures
        r is None <==> holidays@.len() == 0,
        r matches Some((from, to)) ==> exists|e: int, l: int|
            #[trigger] is_earliest(holidays@, e) && #[trigger] is_latest(holidays@, l) && from
                == jan_1(holidays@[e].year) && to == dec_31(holidays@[l].year),
{
    if holidays.len() == 0 {
        return None;
    }
    let mut e: usize = 0;
    let mut l: usize = 0;
    let mut j: usize = 1;
    while j < holidays.len()
        invariant
            1 <= j <= holidays@.len(),
            e < j,
            l < j,
            forall|i: int| 0 <= i < j ==> on_or_before(holidays@[e as int], #[trigger] holidays@[i]),
            forall|i: int| 0 <= i < j ==> on_or_before(#[trigger] holidays@[i], holidays@[l as int]),
        decreases holidays@.len() - j,
    {
        let d = holidays[j];
        proof {
            lemma_before_total(d, holidays@[e as int]);
            lemma_before_total(d, holidays@[l as int]);
        }
        if d.is_before(&holidays[e]) {
            e = j;
        }
        if holidays[l].is_before(&d) {
            l = j;
        }
        j += 1;
    }
    let span = coverage_span_for(holidays[e], holidays[l]);
    assert(is_earliest(holidays@, e as int));
    assert(is_latest(holidays@, l as int));
    Some(span)
}

/// Every seeded holiday lies inside the span it implies.
pub proof fn lemma_holidays_within_span(holidays: Seq<Date>, e: int, l: int, i: int)
    requires
        is_earliest(holidays, e),
        is_latest(holidays, l),
        0 <= i < holidays.len(),
        1 <= holidays[i].month <= 12,
        1 <= holidays[i].day <= 31,
    ensures
        on_or_before(jan_1(holidays[e].year), holidays[i]),
        on_or_before(holidays[i], dec_31(holidays[l].year)),
{
    assert(on_or_before(holidays[e], holidays[i]));
    assert(on_or_before(holidays[i], holidays[l]));
}

/// Some day of the window falls outside the span; a missing span covers
/// nothing.
pub open spec fn spec_window_outside_coverage(start: Date, end: Date, span: Option<(Date, Date)>) -> bool {
    match span {
        None => true,
        Some((from, to)) => before(start, from) || before(to, end),
    }
}

/// Whether any day of the `[start, end]` window falls outside the coverage
/// span. A `None` span (no seeded holidays) covers nothing, so any window is
/// outside it.
pub fn window_outside_coverage(start: Date, end: Date, span: Option<(Date, Date)>) -> (b: bool)
    ensures
        b == spec_window_outside_coverage(start, end, span),
        span matches Some((from, to)) ==> (!b <==> on_or_before(from, start) && on_or_before(
            end,
            to,
        )),
{
    match span {
        None => true,
        Some((from, to)) => {
            proof {
                lemma_before_total(start, from);
                lemma_before_total(to, end);
            }
            start.is_before(&from) || to.is_before(&end)
        },
    }
}

/// A window `[start, end]` is outside the coverage span exactly when there is
/// no span or the window begins before it or ends after it.
pub proof fn lemma_window_outside_coverage_rule(start: Date, end: Date, span: Option<(Date, Date)>)
    ensures
        spec_window_outside_coverage(start, end, span) == (span is None || before(
            start,
            span.unwrap().0,
        ) || before(span.unwrap().1, end)),
{
}

} // verus!
