# price_crash

A token vault whose withdrawals are priced by an oracle account, with its
logic verified by Verus.

- `src/state/` — the vault, user and oracle accounts, the error codes, and
  the oracle account's byte layout (`layout.rs` holds the little-endian
  integer codec and its round-trip lemma).
- `src/instructions/` — the deposit and withdraw instructions as step
  functions from (accounts, argument, event) to (next vault, action), the
  price arithmetic of a withdrawal, and `laws.rs`, what holds of the steps
  together.
- `tests/` — scenarios run against the compiled library.
- `app/` — the on-chain program around the library: account validation,
  the token transfers the steps ask for, and conversions to the framework's
  account and error types.
