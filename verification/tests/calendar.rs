use portfolio_tax::date::{Date, tax_year_for};
use portfolio_tax::exchange_holiday::{
    ExchangeHolidayBody, coverage_span, coverage_span_for, holiday_from_body,
    window_outside_coverage,
};
use portfolio_tax::listing::amit_in_tax_year;

fn ymd(y: i32, m: u32, d: u32) -> Date {
    Date::ymd(y, m, d)
}

#[test]
fn coverage_span_spans_whole_calendar_years() {
    let holidays = vec![ymd(2024, 4, 25), ymd(2026, 12, 25), ymd(2025, 1, 1)];
    // A published calendar covers its whole year, not just its listed days.
    assert_eq!(
        coverage_span(&holidays),
        Some((ymd(2024, 1, 1), ymd(2026, 12, 31)))
    );
    assert_eq!(coverage_span(&Vec::new()), None);
}

#[test]
fn window_outside_coverage_checks_both_ends_and_no_coverage() {
    let span = Some((ymd(2024, 1, 1), ymd(2027, 12, 31)));
    // Fully inside.
    assert!(!window_outside_coverage(ymd(2024, 1, 2), ymd(2024, 1, 4), span));
    // The whole span is covered, boundaries included.
    assert!(!window_outside_coverage(ymd(2024, 1, 1), ymd(2027, 12, 31), span));
    // Starts before coverage / ends after coverage (straddling counts).
    assert!(window_outside_coverage(ymd(2023, 12, 29), ymd(2024, 1, 2), span));
    assert!(window_outside_coverage(ymd(2027, 12, 30), ymd(2028, 1, 4), span));
    // No seeded holidays covers nothing.
    assert!(window_outside_coverage(ymd(2024, 1, 2), ymd(2024, 1, 4), None));
}

#[test]
fn amit_in_tax_year_turns_on_with_the_dated_financial_year() {
    assert!(amit_in_tax_year(true, None, 2019));
    assert!(!amit_in_tax_year(false, None, 2019));

    let from = Some(ymd(2023, 7, 1));
    assert!(!amit_in_tax_year(true, from, 2022));
    assert!(!amit_in_tax_year(true, from, 2023));
    assert!(amit_in_tax_year(true, from, 2024));
    assert!(amit_in_tax_year(true, from, 2025));
}

#[test]
fn tax_year_is_named_by_its_30_june_end() {
    assert_eq!(tax_year_for(ymd(2023, 6, 30)), 2023);
    assert_eq!(tax_year_for(ymd(2023, 7, 1)), 2024);
    assert_eq!(tax_year_for(ymd(2024, 1, 1)), 2024);
}

#[test]
fn coverage_span_of_one_holiday_is_its_year() {
    assert_eq!(
        coverage_span(&vec![ymd(2030, 6, 9)]),
        Some((ymd(2030, 1, 1), ymd(2030, 12, 31)))
    );
    assert_eq!(
        coverage_span_for(ymd(2019, 4, 25), ymd(2027, 12, 27)),
        (ymd(2019, 1, 1), ymd(2027, 12, 31))
    );
}

#[test]
fn every_holiday_lies_inside_its_coverage_span() {
    let holidays = vec![ymd(2026, 4, 3), ymd(2019, 1, 1), ymd(2027, 12, 31), ymd(2024, 11, 28)];
    let span = coverage_span(&holidays);
    for h in &holidays {
        assert!(!window_outside_coverage(*h, *h, span));
    }
}

#[test]
fn a_holiday_body_takes_its_key_from_the_path() {
    let h = holiday_from_body(
        "XASX".to_string(),
        ymd(2030, 1, 1),
        ExchangeHolidayBody { name: "New Year's Day".to_string() },
    );
    assert_eq!(h.id, 0);
    assert_eq!(h.mic, "XASX");
    assert_eq!(h.holiday_date, ymd(2030, 1, 1));
    assert_eq!(h.name, "New Year's Day");
}
