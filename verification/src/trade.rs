//! The trade rows that writes of other records create: the vest Buy of an ESS
//! statement, the parcel Buy of an inheritance and the DRP trade of a
//! reinvestment.

use vstd::prelude::*;
use crate::date::Date;
use crate::money::Dec;

verus! {

/// The kind of a created trade.
#[derive(Clone, Copy, Debug, PartialEq, Eq, Structural)]
pub enum TradeType {
    Buy,
    Drp,
}

/// A trade row as a write creates it (its id is assigned where it is stored).
#[derive(Clone, Debug)]
pub struct NewTrade {
    pub trade_type: TradeType,
    pub date: Date,
    pub settlement_date: Date,
    pub listing_id: i64,
    pub holding_account_id: i64,
    /// Price per unit.
    pub average_price: Dec,
    pub quantity: Dec,
    pub currency: String,
    pub brokerage: Dec,
    pub gst_on_brokerage: Dec,
    pub brokerage_currency: String,
    /// Foreign-per-AUD rate.
    pub fx_rate: Dec,
    /// The ESS statement whose vest created the trade.
    pub ess_statement_id: Option<i64>,
    /// The inheritance whose parcel the trade is.
    pub inheritance_id: Option<i64>,
    /// The date the CGT discount clock runs from, when not the trade date.
    pub deemed_acquisition_date: Option<Date>,
}

/// The id a created trade is stored under: the one it already has when the
/// record that owns it is written again, else the next free id.
pub fn created_trade_id(existing: Option<i64>, next_free: i64) -> (id: i64)
    ensures
        id == (match existing {
            Some(e) => e,
            None => next_free,
        }),
{
    match existing {
        Some(e) => e,
        None => next_free,
    }
}

} // verus!
