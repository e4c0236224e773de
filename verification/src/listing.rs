//! Listings: the securities the ledger records holdings of, and the rules a
//! listing write must satisfy.

use vstd::prelude::*;
use crate::date::{Date, spec_tax_year_for, tax_year_for};
use crate::text::{opt_text_eq, opt_view, text_eq};

verus! {

/// The kind of security a listing is.
#[allow(non_camel_case_types, clippy::upper_case_acronyms)]
#[derive(Clone, Copy, Debug, PartialEq, Eq, Structural)]
pub enum SecurityType {
    Share,
    ETF,
    LIC,
    Trust,
    /// A crypto asset held as an investment: listed on no exchange, and its
    /// ticker is a recognised digital-token code.
    Crypto,
}

impl SecurityType {
    /// This is `Crypto`.
    pub fn is_crypto(&self) -> (b: bool)
        ensures
            b == (*self == SecurityType::Crypto),
    {
        match self {
            SecurityType::Crypto => true,
            _ => false,
        }
    }
}

/// A listed (or, for crypto, exchange-less) security.
#[derive(Clone, Debug)]
pub struct Listing {
    pub id: i64,
    /// `None` exactly for a Crypto listing.
    pub exchange_mic: Option<String>,
    pub ticker: String,
    pub name: String,
    pub isin: Option<String>,
    pub security_type: SecurityType,
    pub currency: String,
    pub amit: bool,
    /// The 1 July the fund became an AMIT; `None` means the flag covers the
    /// whole history.
    pub amit_from: Option<Date>,
    /// Preference share (90 at-risk days for franking instead of 45).
    pub preference: bool,
    /// Provider-symbol override for price collection.
    pub price_symbol: Option<String>,
}

/// A listing as a write request states it (the id comes from the path).
#[derive(Clone, Debug)]
pub struct ListingBody {
    pub exchange_mic: Option<String>,
    pub ticker: String,
    pub name: String,
    pub isin: Option<String>,
    pub security_type: SecurityType,
    pub currency: String,
    pub amit: bool,
    pub amit_from: Option<Date>,
    pub preference: bool,
    pub price_symbol: Option<String>,
}

/// Why a listing write was refused.
#[derive(Clone, Debug, PartialEq, Eq, Structural)]
pub enum UpsertError {
    /// A Crypto listing's ticker is not a recognised digital-token code.
    UnrecognisedDigitalToken,
    /// A ticker or exchange change on a listing that already has trades,
    /// income or closing prices: it must go through the rename action.
    IdentityChangeRequiresRename,
    /// `amit_from` on a listing that is not an AMIT.
    AmitFromWithoutAmit,
    /// `amit_from` is not a 1 July date (carries it).
    AmitFromNotFinancialYearStart(Date),
    /// A Crypto listing was given an exchange.
    CryptoWithExchange,
    /// A non-Crypto listing was written without an exchange.
    ExchangeRequired,
}

/// Was the listing an AMIT in the financial year `tax_year`?
pub open spec fn spec_amit_in_tax_year(amit: bool, amit_from: Option<Date>, tax_year: int) -> bool {
    amit && match amit_from {
        None => true,
        Some(from) => spec_tax_year_for(from) <= tax_year,
    }
}

/// Was this listing an AMIT in the Australian financial year `tax_year`
/// (identified by the calendar year of its 30 June end)? `amit_from` is a
/// 1 July date, so this is a whole-year comparison; `None` means the flag
/// applies to the whole recorded history.
pub fn amit_in_tax_year(amit: bool, amit_from: Option<Date>, tax_year: i32) -> (r: bool)
    requires
        amit_from matches Some(d) ==> d.wf(),
    ensures
        r == spec_amit_in_tax_year(amit, amit_from, tax_year as int),
{
    amit && match amit_from {
        None => true,
        Some(from) => tax_year_for(from) <= tax_year,
    }
}

/// Once a listing is an AMIT in some year it is one in every later year.
pub proof fn lemma_amit_status_persists(
    amit: bool,
    amit_from: Option<Date>,
    year: int,
    later: int,
)
    requires
        spec_amit_in_tax_year(amit, amit_from, year),
        year <= later,
    ensures
        spec_amit_in_tax_year(amit, amit_from, later),
{
}

/// A fund that became an AMIT on 1 July `y` is one from the financial year
/// `y + 1` (which that 1 July starts) and in no earlier year.
pub proof fn lemma_amit_from_first_year(y: i32, tax_year: int)
    ensures
        spec_amit_in_tax_year(true, Some(Date { year: y, month: 7, day: 1 }), tax_year) == (y + 1
            <= tax_year),
{
}

/// The listing a write request describes: the path's id and the body's
/// fields.
pub fn listing_from_body(id: i64, body: ListingBody) -> (l: Listing)
    ensures
        l.id == id,
        l.exchange_mic == body.exchange_mic,
        l.ticker == body.ticker,
        l.name == body.name,
        l.isin == body.isin,
        l.security_type == body.security_type,
        l.currency == body.currency,
        l.amit == body.amit,
        l.amit_from == body.amit_from,
        l.preference == body.preference,
        l.price_symbol == body.price_symbol,
{
    Listing {
        id,
        exchange_mic: body.exchange_mic,
        ticker: body.ticker,
        name: body.name,
        isin: body.isin,
        security_type: body.security_type,
        currency: body.currency,
        amit: body.amit,
        amit_from: body.amit_from,
        preference: body.preference,
        price_symbol: body.price_symbol,
    }
}

/// The write changes the listing's identity: its ticker or its exchange
/// differs from the stored `(ticker, exchange_mic)`.
pub open spec fn spec_identity_changed(
    listing: Listing,
    current: Option<(String, Option<String>)>,
) -> bool {
    match current {
        None => false,
        Some((ticker, mic)) => ticker@ != listing.ticker@ || opt_view(mic) != opt_view(
            listing.exchange_mic,
        ),
    }
}

/// Does writing `listing` over the stored `(ticker, exchange_mic)` (`None`
/// for a new listing) change its identity?
pub fn identity_changed(listing: &Listing, current: &Option<(String, Option<String>)>) -> (r: bool)
    ensures
        r == spec_identity_changed(*listing, *current),
{
    match current {
        None => false,
        Some((ticker, mic)) => !text_eq(ticker.as_str(), listing.ticker.as_str()) || !opt_text_eq(
            mic,
            &listing.exchange_mic,
        ),
    }
}

/// The verdict on a listing write, in the order the checks are made.
pub open spec fn spec_check_upsert(
    listing: Listing,
    current: Option<(String, Option<String>)>,
    has_dependents: bool,
    token_recognised: bool,
) -> Result<(), UpsertError> {
    if spec_identity_changed(listing, current) && has_dependents {
        Err(UpsertError::IdentityChangeRequiresRename)
    } else if listing.amit_from is Some && !listing.amit {
        Err(UpsertError::AmitFromWithoutAmit)
    } else if listing.amit_from matches Some(from) && !(from.month == 7 && from.day == 1) {
        Err(UpsertError::AmitFromNotFinancialYearStart(listing.amit_from.unwrap()))
    } else if listing.security_type == SecurityType::Crypto && listing.exchange_mic is Some {
        Err(UpsertError::CryptoWithExchange)
    } else if listing.security_type != SecurityType::Crypto && listing.exchange_mic is None {
        Err(UpsertError::ExchangeRequired)
    } else if listing.security_type == SecurityType::Crypto && !token_recognised {
        Err(UpsertError::UnrecognisedDigitalToken)
    } else {
        Ok(())
    }
}

/// Decide a listing write. `current` is the stored `(ticker, exchange_mic)`
/// (`None` for a new listing); `has_dependents` says whether the listing has
/// trades, income or closing prices (read only when the identity changes);
/// `token_recognised` whether the ticker is a recognised digital-token code
/// (read only for a Crypto listing).
///
/// An identity change on a listing with history needs the rename action; an
/// `amit_from` needs `amit` and must be a 1 July; a Crypto listing has no
/// exchange and every other listing has one; a Crypto ticker must be a
/// recognised token.
pub fn check_upsert(
    listing: &Listing,
    current: &Option<(String, Option<String>)>,
    has_dependents: bool,
    token_recognised: bool,
) -> (r: Result<(), UpsertError>)
    ensures
        r == spec_check_upsert(*listing, *current, has_dependents, token_recognised),
        r is Ok ==> {
            &&& (listing.security_type == SecurityType::Crypto) == (listing.exchange_mic is None)
            &&& listing.amit_from matches Some(from) ==> listing.amit && from.month == 7
                && from.day == 1
            &&& listing.security_type == SecurityType::Crypto ==> token_recognised
            &&& spec_identity_changed(*listing, *current) ==> !has_dependents
        },
{
    if identity_changed(listing, current) && has_dependents {
        return Err(UpsertError::IdentityChangeRequiresRename);
    }
    if let Some(from) = listing.amit_from {
        if !listing.amit {
            return Err(UpsertError::AmitFromWithoutAmit);
        }
        if !(from.month == 7 && from.day == 1) {
            return Err(UpsertError::AmitFromNotFinancialYearStart(from));
        }
    }
    let crypto = listing.security_type.is_crypto();
    if crypto && listing.exchange_mic.is_some() {
        return Err(UpsertError::CryptoWithExchange);
    }
    if !crypto && listing.exchange_mic.is_none() {
        return Err(UpsertError::ExchangeRequired);
    }
    if crypto && !token_recognised {
        return Err(UpsertError::UnrecognisedDigitalToken);
    }
    Ok(())
}

/// A listing with history keeps its identity: a write over a stored ticker
/// and exchange is accepted only with the same ticker and the same exchange
/// (both absent, or both present with the same code), and a write that changes
/// either is refused as needing a rename. Without history the identity is
/// free to change.
pub proof fn lemma_history_pins_ticker_and_exchange(
    listing: Listing,
    stored_ticker: String,
    stored_mic: Option<String>,
    token_recognised: bool,
)
    ensures
        spec_check_upsert(listing, Some((stored_ticker, stored_mic)), true, token_recognised) is Ok
            ==> listing.ticker@ == stored_ticker@ && (match stored_mic {
            Some(m) => listing.exchange_mic is Some && listing.exchange_mic.unwrap()@ == m@,
            None => listing.exchange_mic is None,
        }),
        (listing.ticker@ != stored_ticker@ || (match stored_mic {
            Some(m) => listing.exchange_mic is None || listing.exchange_mic.unwrap()@ != m@,
            None => listing.exchange_mic is Some,
        })) ==> spec_check_upsert(listing, Some((stored_ticker, stored_mic)), true, token_recognised)
            == Err::<(), UpsertError>(UpsertError::IdentityChangeRequiresRename),
        spec_check_upsert(listing, Some((stored_ticker, stored_mic)), false, token_recognised)
            == spec_check_upsert(listing, None, false, token_recognised),
{
}

/// A listing is an AMIT in a financial year (named by its 30 June end) when
/// its AMIT flag is set and it has no start year or its start date falls in
/// that year or an earlier one.
pub proof fn lemma_amit_year_rule(amit: bool, amit_from: Option<Date>, tax_year: int)
    ensures
        spec_amit_in_tax_year(amit, amit_from, tax_year) == (amit && match amit_from {
            None => true,
            Some(f) => (if f.month >= 7 {
                f.year + 1
            } else {
                f.year as int
            }) <= tax_year,
        }),
{
}

} // verus!
