# pratibha_erp

The rules of a college ERP back end (fees, expenses, hostel, transport,
inventory, library, task lists, notifications), written in Verus with
their contracts proved.

Layout:

- `src/`: the verified library. Each module states what its functions
  return over spec functions (`text`, `dates`, `query`, `paging` hold the
  shared models: trimmed and decimal texts, chrono dates by name, SQL
  texts with numbered parameters, page windows). Public `law_*` proof
  functions state what holds across calls (updates that are idempotent,
  numbers that never repeat, stock that a return restores). Calls into
  chrono, uuid, rand and bcrypt sit behind small trusted wrappers whose
  doc comments say what is assumed of them.
- `tests/`: ordinary Rust tests of the library on concrete values.
- `app/`: the HTTP server around the library: axum handlers, sqlx
  storage, SMS and WhatsApp delivery, JSON web tokens and the serde forms
  of the library's types. It hands the library plain values and acts on
  its answers.
