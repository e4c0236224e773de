//! Exchanges: the markets listings trade on, with their settlement period,
//! local close time and time zone.

use vstd::prelude::*;
use crate::text::{chrono_tz_known, is_hh_mm, is_known_timezone, spec_is_hh_mm};

verus! {

/// A market, keyed by its MIC.
#[derive(Clone, Debug)]
pub struct Exchange {
    pub mic: String,
    pub name: String,
    pub country: String,
    pub currency: String,
    /// IANA time zone of the market.
    pub timezone: String,
    /// T+n business days.
    pub settlement_days: i64,
    /// Local end of the regular session, `HH:MM` in `timezone`.
    pub close_time: String,
}

/// An exchange as a write request states it (the MIC comes from the path).
#[derive(Clone, Debug)]
pub struct ExchangeBody {
    pub name: String,
    pub country: String,
    pub currency: String,
    pub timezone: String,
    pub settlement_days: i64,
    pub close_time: String,
}

/// The most business days `settlement_days` may be: one year's worth, inside
/// the horizon of the seeded holiday calendar.
pub const MAX_SETTLEMENT_DAYS: i64 = 365;

/// The close time a request that omits one gets: 16:00.
pub fn default_close_time() -> (s: String)
    ensures
        s@ == seq!['1', '6', ':', '0', '0'],
{
    let s = String::from_str("16:00");
    proof {
        reveal_strlit("16:00");
    }
    s
}

/// Why an exchange write was refused.
#[derive(Clone, Debug)]
pub enum UpsertError {
    /// `settlement_days` below zero.
    NegativeSettlementDays,
    /// `settlement_days` above [`MAX_SETTLEMENT_DAYS`].
    SettlementDaysAboveMax { value: i64, max: i64 },
    /// `close_time` is not `HH:MM` in range (carries it).
    MalformedCloseTime(String),
    /// `timezone` is not a recognised IANA zone (carries it).
    UnknownTimezone(String),
}

/// The verdict of [`validate`].
pub open spec fn spec_validate(e: Exchange) -> Result<(), UpsertError> {
    if e.settlement_days < 0 {
        Err(UpsertError::NegativeSettlementDays)
    } else if e.settlement_days > MAX_SETTLEMENT_DAYS {
        Err(UpsertError::SettlementDaysAboveMax { value: e.settlement_days, max: MAX_SETTLEMENT_DAYS })
    } else if !spec_is_hh_mm(e.close_time@) {
        Err(UpsertError::MalformedCloseTime(e.close_time))
    } else if !chrono_tz_known(e.timezone@) {
        Err(UpsertError::UnknownTimezone(e.timezone))
    } else {
        Ok(())
    }
}

/// The fields a downstream calculation reads and cannot cope with a bad value
/// of: `settlement_days` within 0 to [`MAX_SETTLEMENT_DAYS`], `close_time` an
/// `HH:MM` local time, and `timezone` a recognised zone.
pub fn validate(e: &Exchange) -> (r: Result<(), UpsertError>)
    ensures
        r == spec_validate(*e),
        r is Ok ==> 0 <= e.settlement_days <= MAX_SETTLEMENT_DAYS && e.close_time@.len() == 5
            && e.close_time@[2] == ':',
{
    if e.settlement_days < 0 {
        return Err(UpsertError::NegativeSettlementDays);
    }
    if e.settlement_days > MAX_SETTLEMENT_DAYS {
        return Err(
            UpsertError::SettlementDaysAboveMax {
                value: e.settlement_days,
                max: MAX_SETTLEMENT_DAYS,
            },
        );
    }
    if !is_hh_mm(e.close_time.as_str()) {
        return Err(UpsertError::MalformedCloseTime(e.close_time.clone()));
    }
    if !is_known_timezone(e.timezone.as_str()) {
        return Err(UpsertError::UnknownTimezone(e.timezone.clone()));
    }
    Ok(())
}

/// The exchange a write request describes.
pub fn exchange_from_body(mic: String, body: ExchangeBody) -> (e: Exchange)
    ensures
        e.mic == mic,
        e.name == body.name,
        e.country == body.country,
        e.currency == body.currency,
        e.timezone == body.timezone,
        e.settlement_days == body.settlement_days,
        e.close_time == body.close_time,
{
    Exchange {
        mic,
        name: body.name,
        country: body.country,
        currency: body.currency,
        timezone: body.timezone,
        settlement_days: body.settlement_days,
        close_time: body.close_time,
    }
}

/// An exchange is accepted exactly when its settlement days are within 0 to
/// [`MAX_SETTLEMENT_DAYS`], its close time is an `HH:MM` time and its zone is
/// one chrono-tz knows.
pub proof fn lemma_exchange_rules(e: Exchange)
    ensures
        spec_validate(e) is Ok <==> 0 <= e.settlement_days <= 365 && spec_is_hh_mm(e.close_time@)
            && chrono_tz_known(e.timezone@),
{
}

} // verus!
