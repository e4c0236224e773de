//! Text rules: currency codes, `HH:MM` times, time-zone names, `YYYY-MM`
//! months.

use vstd::prelude::*;
use vstd::string::*;
use chrono::Timelike;

verus! {

/// `a == b` for two strings, by their characters.
pub fn text_eq(a: &str, b: &str) -> (r: bool)
    ensures
        r == (a@ == b@),
{
    let sa = String::from_str(a);
    let sb = String::from_str(b);
    sa == sb
}

/// Two optional strings are the same (`Option<String>`'s `==`).
pub fn opt_text_eq(a: &Option<String>, b: &Option<String>) -> (r: bool)
    ensures
        r == (opt_view(*a) == opt_view(*b)),
{
    match (a, b) {
        (None, None) => true,
        (Some(x), Some(y)) => text_eq(x.as_str(), y.as_str()),
        _ => false,
    }
}

/// An optional string by its characters.
pub open spec fn opt_view(a: Option<String>) -> Option<Seq<char>> {
    match a {
        Some(s) => Some(s@),
        None => None,
    }
}

/// `c` with an ASCII capital turned to lower case (`char::to_ascii_lowercase`).
pub open spec fn ascii_lower(c: char) -> char {
    if 'A' <= c && c <= 'Z' {
        ((c as u32) + 32) as char
    } else {
        c
    }
}

/// The two character sequences are equal once ASCII letters are folded to
/// lower case.
pub open spec fn eq_ignoring_ascii_case(a: Seq<char>, b: Seq<char>) -> bool {
    &&& a.len() == b.len()
    &&& forall|i: int| 0 <= i < a.len() ==> ascii_lower(#[trigger] a[i]) == ascii_lower(b[i])
}

fn lower_code(c: char) -> (r: u32)
    ensures
        r == ascii_lower(c) as u32,
{
    let v = c as u32;
    if 65 <= v && v <= 90 {
        v + 32
    } else {
        v
    }
}

/// `str::eq_ignore_ascii_case`: equal, ignoring the case of ASCII letters.
pub fn eq_ignore_ascii_case(a: &str, b: &str) -> (r: bool)
    ensures
        r == eq_ignoring_ascii_case(a@, b@),
{
    let n = a.unicode_len();
    if n != b.unicode_len() {
        return false;
    }
    let mut i: usize = 0;
    while i < n
        invariant
            n == a@.len(),
            n == b@.len(),
            i <= n,
            forall|j: int| 0 <= j < i ==> ascii_lower(#[trigger] a@[j]) == ascii_lower(b@[j]),
        decreases n - i,
    {
        let ca = a.get_char(i);
        let cb = b.get_char(i);
        let la = lower_code(ca);
        let lb = lower_code(cb);
        if la != lb {
            assert(ascii_lower(a@[i as int]) != ascii_lower(b@[i as int]));
            return false;
        }
        assert(ascii_lower(a@[i as int]) as u32 == ascii_lower(b@[i as int]) as u32);
        i += 1;
    }
    true
}

/// The currency code of the Australian dollar.
pub open spec fn aud() -> Seq<char> {
    seq!['A', 'U', 'D']
}

/// The currency a request that omits one gets: `AUD`.
pub fn default_currency() -> (s: String)
    ensures
        s@ == aud(),
{
    let s = String::from_str("AUD");
    proof {
        reveal_strlit("AUD");
    }
    s
}

/// `currency == "AUD"`.
pub fn is_aud(currency: &str) -> (r: bool)
    ensures
        r == (currency@ == aud()),
{
    if currency.unicode_len() != 3 {
        return false;
    }
    let r = currency.get_char(0) == 'A' && currency.get_char(1) == 'U' && currency.get_char(2)
        == 'D';
    if r {
        assert(currency@ == aud());
    }
    r
}

/// `currency.eq_ignore_ascii_case("AUD")`.
pub fn is_aud_ignoring_case(currency: &str) -> (r: bool)
    ensures
        r == eq_ignoring_ascii_case(currency@, aud()),
{
    let r = currency.unicode_len() == 3 && lower_code(currency.get_char(0)) == 97 && lower_code(
        currency.get_char(1),
    ) == 117 && lower_code(currency.get_char(2)) == 100;
    proof {
        if currency@.len() == 3 {
            assert(ascii_lower('A') as u32 == 97);
            assert(ascii_lower('U') as u32 == 117);
            assert(ascii_lower('D') as u32 == 100);
            if r {
                assert forall|i: int| 0 <= i < currency@.len() implies ascii_lower(
                    #[trigger] currency@[i],
                ) == ascii_lower(aud()[i]) by {
                    assert(ascii_lower(currency@[i]) as u32 == ascii_lower(aud()[i]) as u32);
                }
            } else {
                let i: int = if lower_code_spec(currency@[0]) != 97 {
                    0
                } else if lower_code_spec(currency@[1]) != 117 {
                    1
                } else {
                    2
                };
                assert(ascii_lower(currency@[i]) != ascii_lower(aud()[i]));
            }
        }
    }
    r
}

spec fn lower_code_spec(c: char) -> u32 {
    ascii_lower(c) as u32
}

/// The ASCII digit for `d` (`d < 10`).
pub open spec fn digit(d: int) -> char {
    ('0' as int + d) as char
}

/// `n` written as two digits, zero-padded (`n < 100`).
pub open spec fn two_digits(n: int) -> Seq<char> {
    seq![digit(n / 10), digit(n % 10)]
}

/// `n` written as four digits, zero-padded (`0 <= n < 10000`).
pub open spec fn four_digits(n: int) -> Seq<char> {
    seq![digit(n / 1000), digit((n / 100) % 10), digit((n / 10) % 10), digit(n % 10)]
}

/// The text `HH:MM` of an hour and minute.
pub open spec fn hh_mm_text(hour: u32, minute: u32) -> Seq<char> {
    two_digits(hour as int) + seq![':'] + two_digits(minute as int)
}

/// What `chrono::NaiveTime::parse_from_str(s, "%H:%M")` gives for `s`, as the
/// time's hour and minute.
pub uninterp spec fn chrono_parse_hh_mm(s: Seq<char>) -> Option<(u32, u32)>;

/// Whether `s.parse::<chrono_tz::Tz>()` succeeds: `s` names a zone of the IANA
/// database the crate compiles in.
pub uninterp spec fn chrono_tz_known(s: Seq<char>) -> bool;

/// `chrono::NaiveTime::parse_from_str(s, "%H:%M")`, handing back the parsed
/// time's hour and minute. The result is named [`chrono_parse_hh_mm`]; a
/// `NaiveTime` always has an hour below 24 and a minute below 60. Which inputs
/// chrono's parser accepts (it takes a one-digit hour, for one) is left unsaid.
#[verifier::external_body]
fn parse_hh_mm(s: &str) -> (r: Option<(u32, u32)>)
    ensures
        r == chrono_parse_hh_mm(s@),
        r matches Some((h, m)) ==> h < 24 && m < 60,
{
    chrono::NaiveTime::parse_from_str(s, "%H:%M").ok().map(|t| (t.hour(), t.minute()))
}

/// `NaiveTime::format("%H:%M").to_string()` for the time `hour:minute:00`:
/// chrono documents `%H` and `%M` as the hour (00-23) and minute (00-59), each
/// zero-padded to two digits.
#[verifier::external_body]
fn format_hh_mm(hour: u32, minute: u32) -> (r: String)
    requires
        hour < 24,
        minute < 60,
    ensures
        r@ == hh_mm_text(hour, minute),
{
    chrono::NaiveTime::from_hms_opt(hour, minute, 0).unwrap().format("%H:%M").to_string()
}

/// `s.parse::<chrono_tz::Tz>().is_ok()`. The result is named
/// [`chrono_tz_known`].
#[verifier::external_body]
pub(crate) fn is_known_timezone(s: &str) -> (r: bool)
    ensures
        r == chrono_tz_known(s@),
{
    s.parse::<chrono_tz::Tz>().is_ok()
}

/// `s` is an `HH:MM` local time: chrono parses it with `%H:%M` and it formats
/// back to exactly itself, so a one-digit hour (`9:30`) is refused along with
/// anything out of range.
pub open spec fn spec_is_hh_mm(s: Seq<char>) -> bool {
    chrono_parse_hh_mm(s) matches Some((h, m)) && hh_mm_text(h, m) == s
}

/// Is `s` an `HH:MM` local time — two digits, a colon, two digits, in range?
/// chrono's own parse accepts a one- or two-digit hour, while the stored form
/// is strictly `HH:MM`, so the canonical round trip pins it: anything that does
/// not format back to the input is refused.
pub fn is_hh_mm(s: &str) -> (r: bool)
    ensures
        r == spec_is_hh_mm(s@),
        r ==> {
            &&& s@.len() == 5
            &&& s@[2] == ':'
            &&& '0' <= s@[0] <= '2'
            &&& '0' <= s@[1] <= '9'
            &&& s@[0] == '2' ==> s@[1] <= '3'
            &&& '0' <= s@[3] <= '5'
            &&& '0' <= s@[4] <= '9'
        },
{
    match parse_hh_mm(s) {
        None => false,
        Some((h, m)) => {
            let text = format_hh_mm(h, m);
            let r = text_eq(text.as_str(), s);
            proof {
                if r {
                    assert(s@ == hh_mm_text(h, m));
                    assert(s@[0] == digit(h as int / 10));
                    assert(s@[1] == digit(h as int % 10));
                    assert(s@[2] == ':');
                    assert(s@[3] == digit(m as int / 10));
                    assert(s@[4] == digit(m as int % 10));
                    if s@[0] == '2' {
                        assert(h as int / 10 == 2);
                        assert(h as int % 10 <= 3);
                    }
                }
            }
            r
        },
    }
}

/// `n` in decimal, without padding.
pub open spec fn decimal_digits(n: nat) -> Seq<char>
    decreases n,
{
    if n < 10 {
        seq![digit(n as int)]
    } else {
        decimal_digits(n / 10).push(digit((n % 10) as int))
    }
}

/// How chrono writes a year for `%Y`: years 0 to 9999 as four digits; any
/// other with its sign, zero-padded to four digits after it.
pub open spec fn year_text(y: int) -> Seq<char> {
    if 0 <= y <= 9999 {
        four_digits(y)
    } else if y > 9999 {
        seq!['+'] + decimal_digits(y as nat)
    } else if -y <= 9999 {
        seq!['-'] + four_digits(-y)
    } else {
        seq!['-'] + decimal_digits((-y) as nat)
    }
}

/// `date.format("%Y-%m").to_string()` for the first of `month` in `year`.
/// chrono writes `%Y` zero-padded: a year from 0 to 9999 as four digits, any
/// other through `{:+05}`, a sign and then the digits padded to four; and `%m`
/// as the month zero-padded to two digits.
#[verifier::external_body]
pub(crate) fn format_year_month(year: i32, month: u32) -> (r: String)
    requires
        1 <= month <= 12,
        -262143 <= year <= 262142,
    ensures
        r@ == year_text(year as int) + seq!['-'] + two_digits(month as int),
{
    chrono::NaiveDate::from_ymd_opt(year, month, 1).unwrap().format("%Y-%m").to_string()
}

} // verus!
