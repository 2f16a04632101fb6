# synora

A verified library for two Solana programs: a peer-to-peer price-betting
program (create, accept, cancel, settle and claim bets; a house account and
its treasury) and a small escrow deposit.

- `src/` holds the logic, verified: the account data (`state`), the
  instructions as functions from the accounts' contents, the clock and the
  balances to the accounts' new contents and the transfer to make
  (`instructions`, `escrow`), the settlement from a Switchboard price feed
  (`feed`, `instructions/check_winner.rs`), and the properties that span
  several instructions (`laws`).
- `app/` holds the Anchor side: account constraints and layouts, clock reads,
  and the system-program transfers that the library asks for.
- `tests/` runs the library on concrete accounts.
