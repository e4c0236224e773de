//! Portfolio tax ledger: the write-time rules of an Australian investor's
//! share, income and tax records.

pub mod date;
pub mod money;
pub mod text;
pub mod trade;
pub mod listing;
pub mod income;
pub mod drp_reinvestment;
pub mod ess_statement;
pub mod ess_vest;
pub mod interest_income;
pub mod investment_expense;
pub mod inheritance;
pub mod write_outcome;
pub mod exchange;
pub mod holding_account;
pub mod exchange_holiday;
pub mod listing_rename;
