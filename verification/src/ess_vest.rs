//! ESS vesting: the cost-base-reset Buy an employee share scheme statement
//! creates at its taxing point.

use vstd::prelude::*;
use crate::ess_statement::EssStatement;
use crate::money::Dec;
use crate::trade::{NewTrade, TradeType};

verus! {

/// Why a vest was refused.
#[derive(Clone, Copy, Debug, PartialEq, Eq, Structural)]
pub enum VestError {
    /// No statement with that id.
    StatementNotFound,
    /// The statement already has a vest Buy.
    AlreadyVested,
    /// The quantity or the per-share market value is not above zero.
    NothingToVest,
}

/// Decide a vest from the statement's `(quantity, market_value_per_share)`
/// (`None`: no such statement) and whether it is already vested. `Ok` means
/// the Buy is to be created: `quantity` units at the market value, dated and
/// settled at the taxing point.
pub fn check_vest(row: Option<(Dec, Dec)>, already_vested: bool) -> (r: Result<(), VestError>)
    requires
        row matches Some((q, p)) ==> q.wf() && p.wf(),
    ensures
        r == (match row {
            None => Err(VestError::StatementNotFound),
            Some((q, p)) => if already_vested {
                Err(VestError::AlreadyVested)
            } else if q.units() <= 0 || p.units() <= 0 {
                Err(VestError::NothingToVest)
            } else {
                Ok(())
            },
        }),
        r is Ok ==> (row matches Some((q, p)) && q.units() > 0 && p.units() > 0 && !already_vested),
{
    match row {
        None => Err(VestError::StatementNotFound),
        Some((quantity, price)) => {
            if already_vested {
                return Err(VestError::AlreadyVested);
            }
            if !quantity.is_positive() || !price.is_positive() {
                return Err(VestError::NothingToVest);
            }
            Ok(())
        },
    }
}

/// The cost-base-reset Buy a vest creates: the statement's quantity at its
/// per-share market value, dated and settled on the taxing point, with no
/// brokerage, in the statement's currency at a rate of 1, linked to the
/// statement. The discount clock runs from the taxing point itself, so there
/// is no deemed acquisition date.
pub fn vest_buy(s: &EssStatement) -> (t: NewTrade)
    ensures
        t.trade_type == TradeType::Buy,
        t.date == s.taxing_point_date,
        t.settlement_date == s.taxing_point_date,
        t.listing_id == s.listing_id,
        t.holding_account_id == s.holding_account_id,
        t.average_price == s.market_value_per_share,
        t.quantity == s.quantity,
        t.currency == s.currency,
        t.brokerage == (Dec { mantissa: 0, scale: 0 }),
        t.gst_on_brokerage == (Dec { mantissa: 0, scale: 0 }),
        t.brokerage_currency == s.currency,
        t.fx_rate == (Dec { mantissa: 1, scale: 0 }),
        t.ess_statement_id == Some(s.id),
        t.inheritance_id is None,
        t.deemed_acquisition_date is None,
{
    NewTrade {
        trade_type: TradeType::Buy,
        date: s.taxing_point_date,
        settlement_date: s.taxing_point_date,
        listing_id: s.listing_id,
        holding_account_id: s.holding_account_id,
        average_price: s.market_value_per_share,
        quantity: s.quantity,
        currency: s.currency.clone(),
        brokerage: Dec::zero(),
        gst_on_brokerage: Dec::zero(),
        brokerage_currency: s.currency.clone(),
        fx_rate: Dec::new(1, 0),
        ess_statement_id: Some(s.id),
        inheritance_id: None,
        deemed_acquisition_date: None,
    }
}

} // verus!
