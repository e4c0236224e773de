//! Holding accounts: where, within one taxpayer, a holding is custodied (a
//! broker account, an employer share-plan account).

use vstd::prelude::*;
use crate::write_outcome::{Upsert, upsert_outcome};

verus! {

/// The account every write that omits `holding_account_id` lands in.
pub const DEFAULT_HOLDING_ACCOUNT_ID: i64 = 1;

/// The default for `holding_account_id` in request bodies.
pub fn default_holding_account_id() -> (id: i64)
    ensures
        id == DEFAULT_HOLDING_ACCOUNT_ID,
{
    DEFAULT_HOLDING_ACCOUNT_ID
}

/// A holding account.
#[derive(Clone, Debug)]
pub struct HoldingAccount {
    pub id: i64,
    pub name: String,
}

/// A holding account as a write request states it.
#[derive(Clone, Debug)]
pub struct HoldingAccountBody {
    pub name: String,
}

/// Why a holding-account create failed (beyond the database's own refusals).
#[derive(Clone, Copy, Debug, PartialEq, Eq, Structural)]
pub enum UpsertError {
    /// The created row could not be read back.
    VanishedAfterCreate,
}

/// The row a request body describes: the path's id on an upsert (ignored on a
/// create, where the database assigns one) and the body's name.
pub fn holding_account_from_body(id: i64, body: HoldingAccountBody) -> (a: HoldingAccount)
    ensures
        a.id == id,
        a.name == body.name,
{
    HoldingAccount { id, name: body.name }
}

/// The id a write leaves the row under: the explicit one an upsert was handed,
/// else the one the database assigned to a create.
pub fn assigned_id(requested: Option<i64>, inserted_rowid: i64) -> (id: i64)
    ensures
        id == (match requested {
            Some(r) => r,
            None => inserted_rowid,
        }),
{
    match requested {
        Some(r) => r,
        None => inserted_rowid,
    }
}

/// The outcome of a write: a create (no id) never replaces; an upsert replaces
/// exactly when its id `existed`.
pub fn write_outcome(requested: Option<i64>, existed: bool) -> (u: Upsert)
    ensures
        u == (if requested is Some && existed {
            Upsert::Replaced
        } else {
            Upsert::Created
        }),
{
    match requested {
        Some(_) => upsert_outcome(existed),
        None => upsert_outcome(false),
    }
}

/// Outcome of a delete request.
#[derive(Clone, Copy, Debug, PartialEq, Eq, Structural)]
pub enum DeleteOutcome {
    Deleted,
    NotFound,
    /// The account still holds data, or it is the default account.
    Referenced,
}

/// Decide a delete: `exists` whether the account exists, `referenced`
/// whether trades, income, AMMA statements, DRP enrolments or transfers refer
/// to it. The default account is never deleted.
pub fn delete_outcome(exists: bool, id: i64, referenced: bool) -> (r: DeleteOutcome)
    ensures
        r == (if !exists {
            DeleteOutcome::NotFound
        } else if id == DEFAULT_HOLDING_ACCOUNT_ID || referenced {
            DeleteOutcome::Referenced
        } else {
            DeleteOutcome::Deleted
        }),
        id == DEFAULT_HOLDING_ACCOUNT_ID ==> r != DeleteOutcome::Deleted,
{
    if !exists {
        return DeleteOutcome::NotFound;
    }
    if id == DEFAULT_HOLDING_ACCOUNT_ID {
        return DeleteOutcome::Referenced;
    }
    if referenced {
        return DeleteOutcome::Referenced;
    }
    DeleteOutcome::Deleted
}

} // verus!
