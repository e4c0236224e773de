# portfolio_tax

The write-time rules of an Australian investor's share, income and tax
ledger, proved with Verus.

- `src/` is the verified library. Each module holds one kind of record
  (listings, exchanges and their holidays, holding accounts, dividends and
  trust distributions, DRP reinvestments, employee share scheme statements and
  vests, interest, investment expenses, inheritances, listing renames) with
  the decisions a write makes about it, stated as `requires`/`ensures`
  contracts over plain values. `money.rs` models `rust_decimal` figures as a
  mantissa and a scale; `date.rs` models calendar dates; `text.rs` holds the
  string rules. Arithmetic on decimals, time parsing and time-zone lookup are
  done by `rust_decimal`, `chrono` and `chrono-tz` behind small trusted
  wrappers whose contracts say what those crates document.
- `tests/` runs the library on concrete values.
- `src/trade.rs` describes the trade rows other writes create: the vest Buy
  of an ESS statement, the parcel Buy of an inheritance and the DRP trade of
  a reinvestment, each fixed field by field by its function's contract.
- `app/` is the HTTP and SQLite edge (axum, sqlx, serde): it reads what a
  write needs, asks the library for the decision and the rows to write,
  writes them and turns refusals into responses. The rules that belong to
  parts of the ledger outside these records (the franking-credit ceiling,
  return-of-capital currencies, DRP enrolment residuals, whole-holding
  operations, corporate-action re-basing) are supplied to its routes by the
  application that assembles them.
