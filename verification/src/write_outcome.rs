//! Whether an upsert created its row or replaced one.

use vstd::prelude::*;

verus! {

/// What an upsert did.
#[derive(Clone, Copy, Debug, PartialEq, Eq, Structural)]
pub enum Upsert {
    Created,
    Replaced,
}

/// The outcome of an upsert whose key `existed` before the write.
pub fn upsert_outcome(existed: bool) -> (u: Upsert)
    ensures
        u == (if existed {
            Upsert::Replaced
        } else {
            Upsert::Created
        }),
{
    if existed {
        Upsert::Replaced
    } else {
        Upsert::Created
    }
}

} // verus!
