//! Ticker and exchange renames as dated, recorded events, and their undo.
//!
//! A rename changes a listing's ticker (and optionally its exchange, name and
//! price-symbol override) and records what it overwrote, so the newest rename
//! can be undone by putting those values back.

use vstd::prelude::*;
use crate::date::{Date, before, on_or_before};
use crate::listing::{Listing, SecurityType};
use crate::text::{opt_text_eq, opt_view, text_eq};

verus! {

/// One recorded rename.
#[derive(Clone, Debug)]
pub struct ListingRename {
    pub id: i64,
    pub listing_id: i64,
    pub effective_date: Date,
    pub old_ticker: String,
    pub new_ticker: String,
    pub old_exchange_mic: Option<String>,
    pub new_exchange_mic: Option<String>,
    /// What the rename overwrote; `None` only on a record that predates the
    /// columns.
    pub old_name: Option<String>,
    pub old_price_symbol: Option<String>,
    pub note: Option<String>,
}

/// A rename request.
#[derive(Clone, Debug)]
pub struct RenameBody {
    pub effective_date: Date,
    pub ticker: String,
    /// Omitted keeps the listing's exchange.
    pub exchange_mic: Option<String>,
    /// Omitted keeps the listing's name.
    pub name: Option<String>,
    /// Omitted leaves the price-symbol override as it was.
    pub price_symbol: Option<String>,
    pub note: Option<String>,
}

/// Why a rename was refused.
#[derive(Clone, Debug)]
pub enum RenameError {
    ListingNotFound,
    /// The rename changes neither the ticker nor the exchange.
    NoOp,
    /// `effective_date` is not after the listing's latest rename.
    OutOfOrder { latest: Date },
    /// `effective_date` is after today.
    FutureDated { today: Date },
    /// A Crypto listing's new ticker is not a recognised digital-token code.
    UnrecognisedDigitalToken,
    /// The rename would give a Crypto listing an exchange.
    CryptoWithExchange,
    /// The rename moves the listing to an exchange quoting another currency.
    ExchangeCurrencyMismatch { mic: String, listing_currency: String, exchange_currency: String },
    /// The resulting identity is already another listing's.
    TickerCollision { ticker: String, mic: Option<String>, holder_id: i64, holder_name: String },
}

/// Why an undo was refused.
#[derive(Clone, Copy, Debug, PartialEq, Eq, Structural)]
pub enum UndoError {
    RenameNotFound,
    /// Only the newest rename of a listing can be undone.
    NotNewest,
}

/// What a rename writes: the listing's new identity and what it overwrites.
#[derive(Clone, Debug)]
pub struct RenamePlan {
    pub new_ticker: String,
    pub new_exchange_mic: Option<String>,
    pub new_name: String,
    pub new_price_symbol: Option<String>,
    pub old_ticker: String,
    pub old_exchange_mic: Option<String>,
    pub old_name: String,
    pub old_price_symbol: Option<String>,
}

/// The exchange after the rename: the request's, else the listing's.
pub open spec fn spec_new_mic(body: RenameBody, current: Listing) -> Option<String> {
    match body.exchange_mic {
        Some(m) => Some(m),
        None => current.exchange_mic,
    }
}

/// Everything the rename decision reads besides the request.
#[derive(Clone, Debug)]
pub struct RenameFacts {
    /// The listing, `None` when there is no such listing.
    pub current: Option<Listing>,
    /// Today's date.
    pub today: Date,
    /// The effective date of the listing's latest rename.
    pub latest: Option<Date>,
    /// The currency the new exchange quotes in (read only when the rename
    /// changes the exchange; `None` for an unknown exchange).
    pub exchange_currency: Option<String>,
    /// The new ticker is a recognised digital-token code (read only for a
    /// Crypto listing).
    pub token_recognised: bool,
    /// Another listing already holding the resulting identity: its id and
    /// name.
    pub holder: Option<(i64, String)>,
}

/// The verdict on a rename, in the order the checks are made.
pub open spec fn spec_plan_rename(body: RenameBody, facts: RenameFacts) -> Result<RenamePlan, RenameError> {
    match facts.current {
        None => Err(RenameError::ListingNotFound),
        Some(c) => {
            let new_mic = spec_new_mic(body, c);
            let mic_changed = opt_view(new_mic) != opt_view(c.exchange_mic);
            if body.ticker@ == c.ticker@ && !mic_changed {
                Err(RenameError::NoOp)
            } else if before(facts.today, body.effective_date) {
                Err(RenameError::FutureDated { today: facts.today })
            } else if facts.latest matches Some(l) && on_or_before(body.effective_date, l) {
                Err(RenameError::OutOfOrder { latest: facts.latest.unwrap() })
            } else if c.security_type == SecurityType::Crypto && new_mic is Some {
                Err(RenameError::CryptoWithExchange)
            } else if mic_changed && new_mic is Some && (facts.exchange_currency matches Some(ec)
                && ec@ != c.currency@) {
                Err(
                    RenameError::ExchangeCurrencyMismatch {
                        mic: new_mic.unwrap(),
                        listing_currency: c.currency,
                        exchange_currency: facts.exchange_currency.unwrap(),
                    },
                )
            } else if c.security_type == SecurityType::Crypto && !facts.token_recognised {
                Err(RenameError::UnrecognisedDigitalToken)
            } else if facts.holder is Some {
                Err(
                    RenameError::TickerCollision {
                        ticker: body.ticker,
                        mic: new_mic,
                        holder_id: facts.holder.unwrap().0,
                        holder_name: facts.holder.unwrap().1,
                    },
                )
            } else {
                Ok(
                    RenamePlan {
                        new_ticker: body.ticker,
                        new_exchange_mic: new_mic,
                        new_name: match body.name {
                            Some(n) => n,
                            None => c.name,
                        },
                        new_price_symbol: match body.price_symbol {
                            Some(p) => Some(p),
                            None => c.price_symbol,
                        },
                        old_ticker: c.ticker,
                        old_exchange_mic: c.exchange_mic,
                        old_name: c.name,
                        old_price_symbol: c.price_symbol,
                    },
                )
            }
        },
    }
}

/// Decide a rename. In order: the listing must exist; the rename must change
/// the ticker or the exchange (omitted fields keep the listing's); it may not
/// be dated after today, nor on or before the listing's latest rename; a
/// Crypto listing gets no exchange; a changed exchange must quote the
/// listing's currency; a Crypto ticker must be a recognised token; and the
/// resulting identity must be free. The plan takes the overwritten values
/// from the listing itself, never from the request.
pub fn plan_rename(body: &RenameBody, facts: &RenameFacts) -> (r: Result<RenamePlan, RenameError>)
    ensures
        r == spec_plan_rename(*body, *facts),
{
    let c = match &facts.current {
        None => {
            return Err(RenameError::ListingNotFound);
        },
        Some(c) => c,
    };
    let new_mic = match &body.exchange_mic {
        Some(m) => Some(m.clone()),
        None => c.exchange_mic.clone(),
    };
    let mic_changed = !opt_text_eq(&new_mic, &c.exchange_mic);
    if text_eq(body.ticker.as_str(), c.ticker.as_str()) && !mic_changed {
        return Err(RenameError::NoOp);
    }
    if facts.today.is_before(&body.effective_date) {
        return Err(RenameError::FutureDated { today: facts.today });
    }
    if let Some(latest) = facts.latest {
        if body.effective_date.is_on_or_before(&latest) {
            return Err(RenameError::OutOfOrder { latest });
        }
    }
    let crypto = c.security_type.is_crypto();
    if crypto && new_mic.is_some() {
        return Err(RenameError::CryptoWithExchange);
    }
    if mic_changed {
        if let Some(mic) = &new_mic {
            if let Some(ec) = &facts.exchange_currency {
                if !text_eq(ec.as_str(), c.currency.as_str()) {
                    return Err(
                        RenameError::ExchangeCurrencyMismatch {
                            mic: mic.clone(),
                            listing_currency: c.currency.clone(),
                            exchange_currency: ec.clone(),
                        },
                    );
                }
            }
        }
    }
    if crypto && !facts.token_recognised {
        return Err(RenameError::UnrecognisedDigitalToken);
    }
    if let Some((holder_id, holder_name)) = &facts.holder {
        return Err(
            RenameError::TickerCollision {
                ticker: body.ticker.clone(),
                mic: new_mic,
                holder_id: *holder_id,
                holder_name: holder_name.clone(),
            },
        );
    }
    let new_name = match &body.name {
        Some(n) => n.clone(),
        None => c.name.clone(),
    };
    let new_price_symbol = match &body.price_symbol {
        Some(p) => Some(p.clone()),
        None => c.price_symbol.clone(),
    };
    Ok(
        RenamePlan {
            new_ticker: body.ticker.clone(),
            new_exchange_mic: new_mic,
            new_name,
            new_price_symbol,
            old_ticker: c.ticker.clone(),
            old_exchange_mic: c.exchange_mic.clone(),
            old_name: c.name.clone(),
            old_price_symbol: c.price_symbol.clone(),
        },
    )
}

/// The record a planned rename is stored as.
pub fn rename_record(id: i64, listing_id: i64, body: &RenameBody, plan: &RenamePlan) -> (r:
    ListingRename)
    ensures
        r.id == id,
        r.listing_id == listing_id,
        r.effective_date == body.effective_date,
        r.old_ticker == plan.old_ticker,
        r.new_ticker == plan.new_ticker,
        r.old_exchange_mic == plan.old_exchange_mic,
        r.new_exchange_mic == plan.new_exchange_mic,
        r.old_name == Some(plan.old_name),
        r.old_price_symbol == plan.old_price_symbol,
        r.note == body.note,
{
    ListingRename {
        id,
        listing_id,
        effective_date: body.effective_date,
        old_ticker: plan.old_ticker.clone(),
        new_ticker: plan.new_ticker.clone(),
        old_exchange_mic: plan.old_exchange_mic.clone(),
        new_exchange_mic: plan.new_exchange_mic.clone(),
        old_name: Some(plan.old_name.clone()),
        old_price_symbol: plan.old_price_symbol.clone(),
        note: body.note.clone(),
    }
}

/// What an undo puts back on the listing.
#[derive(Clone, Debug)]
pub struct UndoPlan {
    pub ticker: String,
    pub exchange_mic: Option<String>,
    /// The name and price-symbol override to restore; `None` for a record
    /// that predates them, which leaves both as they stand.
    pub name_and_price_symbol: Option<(String, Option<String>)>,
}

/// The stored fields of a rename an undo reads.
#[derive(Clone, Debug)]
pub struct RenameTarget {
    pub effective_date: Date,
    pub old_ticker: String,
    pub old_exchange_mic: Option<String>,
    pub old_name: Option<String>,
    pub old_price_symbol: Option<String>,
}

/// The verdict on an undo.
pub open spec fn spec_plan_undo(target: Option<RenameTarget>, newest: Option<Date>) -> Result<
    UndoPlan,
    UndoError,
> {
    match target {
        None => Err(UndoError::RenameNotFound),
        Some(t) => if newest != Some(t.effective_date) {
            Err(UndoError::NotNewest)
        } else {
            Ok(
                UndoPlan {
                    ticker: t.old_ticker,
                    exchange_mic: t.old_exchange_mic,
                    name_and_price_symbol: match t.old_name {
                        Some(n) => Some((n, t.old_price_symbol)),
                        None => None,
                    },
                },
            )
        },
    }
}

/// Decide an undo of a listing's rename (`target`, `None` when the listing
/// has no such rename) given the listing's newest effective date: only the
/// newest rename is undone, and it restores the ticker, the exchange and —
/// when the record kept them — the name and price-symbol override.
pub fn plan_undo(target: &Option<RenameTarget>, newest: Option<Date>) -> (r: Result<UndoPlan, UndoError>)
    ensures
        r == spec_plan_undo(*target, newest),
{
    match target {
        None => Err(UndoError::RenameNotFound),
        Some(t) => {
            let is_newest = match newest {
                Some(n) => n.same(&t.effective_date),
                None => false,
            };
            if !is_newest {
                return Err(UndoError::NotNewest);
            }
            Ok(
                UndoPlan {
                    ticker: t.old_ticker.clone(),
                    exchange_mic: t.old_exchange_mic.clone(),
                    name_and_price_symbol: match &t.old_name {
                        Some(n) => Some((n.clone(), t.old_price_symbol.clone())),
                        None => None,
                    },
                },
            )
        },
    }
}

/// Undoing a rename puts back the identity it overwrote: the record of a
/// planned rename of listing `c`, undone while it is the newest, restores
/// `c`'s ticker, exchange, name and price-symbol override.
pub proof fn lemma_undo_restores_renamed_listing(
    body: RenameBody,
    facts: RenameFacts,
    plan: RenamePlan,
    record: ListingRename,
)
    requires
        spec_plan_rename(body, facts) == Ok::<RenamePlan, RenameError>(plan),
        record.effective_date == body.effective_date,
        record.old_ticker == plan.old_ticker,
        record.old_exchange_mic == plan.old_exchange_mic,
        record.old_name == Some(plan.old_name),
        record.old_price_symbol == plan.old_price_symbol,
    ensures
        ({
            let c = facts.current.unwrap();
            let undo = spec_plan_undo(
                Some(
                    RenameTarget {
                        effective_date: record.effective_date,
                        old_ticker: record.old_ticker,
                        old_exchange_mic: record.old_exchange_mic,
                        old_name: record.old_name,
                        old_price_symbol: record.old_price_symbol,
                    },
                ),
                Some(record.effective_date),
            );
            undo == Ok::<UndoPlan, UndoError>(
                UndoPlan {
                    ticker: c.ticker,
                    exchange_mic: c.exchange_mic,
                    name_and_price_symbol: Some((c.name, c.price_symbol)),
                },
            )
        }),
{
}

/// A planned rename changes the listing's identity, is dated no later than
/// today and after every earlier rename, and leaves a Crypto listing without
/// an exchange.
pub proof fn lemma_planned_rename_is_ordered(body: RenameBody, facts: RenameFacts, plan: RenamePlan)
    requires
        spec_plan_rename(body, facts) == Ok::<RenamePlan, RenameError>(plan),
    ensures
        plan.new_ticker@ != plan.old_ticker@ || opt_view(plan.new_exchange_mic) != opt_view(
            plan.old_exchange_mic,
        ),
        on_or_before(body.effective_date, facts.today),
        facts.latest matches Some(l) ==> before(l, body.effective_date),
        facts.current.unwrap().security_type == SecurityType::Crypto ==> plan.new_exchange_mic is None,
{
    crate::date::lemma_before_total(body.effective_date, facts.today);
    if facts.latest is Some {
        crate::date::lemma_before_total(body.effective_date, facts.latest.unwrap());
    }
}

/// A planned rename takes the new identity from the request and records the
/// old one from the listing: the new ticker is the requested one; the new
/// exchange, name and price symbol are the requested ones where the request
/// states them and the listing's own otherwise; and the old ticker, exchange,
/// name and price symbol are the listing's.
pub proof fn lemma_rename_plan_takes_the_request(body: RenameBody, facts: RenameFacts)
    ensures
        spec_plan_rename(body, facts) is Ok ==> {
            let plan = spec_plan_rename(body, facts).unwrap();
            let c = facts.current.unwrap();
            &&& facts.current is Some
            &&& plan.new_ticker == body.ticker
            &&& plan.new_exchange_mic == (if body.exchange_mic is Some {
                body.exchange_mic
            } else {
                c.exchange_mic
            })
            &&& plan.new_name == (if body.name is Some {
                body.name.unwrap()
            } else {
                c.name
            })
            &&& plan.new_price_symbol == (if body.price_symbol is Some {
                body.price_symbol
            } else {
                c.price_symbol
            })
            &&& plan.old_ticker == c.ticker
            &&& plan.old_exchange_mic == c.exchange_mic
            &&& plan.old_name == c.name
            &&& plan.old_price_symbol == c.price_symbol
        },
{
}

/// A rename is accepted when the listing exists, the rename changes its ticker
/// or its exchange, it is dated no later than today and after the listing's
/// latest rename, a Crypto listing is given no exchange, a changed exchange
/// does not quote another currency than the listing's, a Crypto ticker is a
/// recognised token, and no other listing holds the resulting identity.
pub proof fn lemma_rename_accepted_when_every_rule_holds(body: RenameBody, facts: RenameFacts)
    ensures
        ({
            let c = facts.current.unwrap();
            let new_mic = if body.exchange_mic is Some {
                body.exchange_mic
            } else {
                c.exchange_mic
            };
            let mic_changed = match (new_mic, c.exchange_mic) {
                (Some(a), Some(b)) => a@ != b@,
                (None, None) => false,
                _ => true,
            };
            let crypto = c.security_type == SecurityType::Crypto;
            &&& facts.current is Some
            &&& body.ticker@ != c.ticker@ || mic_changed
            &&& !before(facts.today, body.effective_date)
            &&& facts.latest is Some ==> before(facts.latest.unwrap(), body.effective_date)
            &&& !(crypto && new_mic is Some)
            &&& !(mic_changed && new_mic is Some && facts.exchange_currency is Some
                && facts.exchange_currency.unwrap()@ != c.currency@)
            &&& crypto ==> facts.token_recognised
            &&& facts.holder is None
        }) ==> spec_plan_rename(body, facts) is Ok,
{
    if facts.latest is Some {
        crate::date::lemma_before_total(facts.latest.unwrap(), body.effective_date);
    }
}

/// Only the newest rename is undone, and its undo puts back what it recorded:
/// an undo is accepted exactly when the rename exists and its effective date
/// is the listing's newest, and then restores the recorded ticker and exchange,
/// and the recorded name and price symbol when the record kept a name.
pub proof fn lemma_undo_rules(target: Option<RenameTarget>, newest: Option<Date>)
    ensures
        spec_plan_undo(target, newest) is Ok <==> target is Some && newest == Some(
            target.unwrap().effective_date,
        ),
        spec_plan_undo(target, newest) is Ok ==> {
            let t = target.unwrap();
            let u = spec_plan_undo(target, newest).unwrap();
            &&& u.ticker == t.old_ticker
            &&& u.exchange_mic == t.old_exchange_mic
            &&& u.name_and_price_symbol == (if t.old_name is Some {
                Some((t.old_name.unwrap(), t.old_price_symbol))
            } else {
                None
            })
        },
{
}

} // verus!
