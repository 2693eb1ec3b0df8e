# simple-db

A database toolkit's core, verified with Verus: a compact value type, fluent
query builders, the change-tracking decisions of an entity layer, and the
decisions of managed transactions. Every function in `src/` carries a
contract. Verus proves the contracts of the library's own functions; the
calls into outside crates (smallvec, smol_str, rust_decimal, chrono, uuid,
serde_json) and into `char::from_u32` sit behind small trusted wrappers in
`src/outside.rs`, `src/lists.rs` and `src/order.rs`, whose contracts are
believed rather than proved. The asynchronous driver interface lives in
`app/`, which calls into the library.

## Layout

- `src/bits.rs` — the bit layout of a packed value word (16-bit tag, 48-bit
  payload) and its lemmas.
- `src/value.rs` — `DbValue`: constructors, readers, equality, cloning, the
  `From`/`TryFrom` conversions, and the read-after-write and equality laws.
- `src/order.rs` — the partial order of values and its laws.
- `src/lists.rs` — the short clause lists, backed by `smallvec`.
- `src/builders/` — filter, projection, sort and group builders.
- `src/queries/` — find, insert, update and delete queries, `Query` and
  `Collection`.
- `src/entity.rs` — tracking states, what saving and deleting an entity
  sends, and the laws of change detection.
- `src/transaction.rs` — closing a transaction once; commit or rollback
  after a managed block.
- `src/types.rs`, `src/error.rs`, `src/text.rs` — error types, their
  messages, and the row interface.
- `src/outside.rs` — the outside types and the trusted calls into them.
- `app/` — async driver traits, managed transactions, entity persistence,
  error types with `Display`, float and UTC-timestamp conversions.
- `tests/` — the test suite.
