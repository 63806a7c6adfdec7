# Wager markets

The rules of a sports prediction market, verified with Verus.

- `src/` is the library. `state/` holds the accounts (events, markets,
  vaults, liquidity pools, users, bets) and their own operations;
  `context/` holds the three instructions of the market: setting up an
  event, placing a bet, and resolving an event. Each function states in its
  contract what it returns and how it changes the accounts, including the
  error that refuses a request and the fact that a refused request changes
  nothing.
- `tests/` runs the library on concrete accounts.
- `app/` is the on-chain program around the library: account layouts and
  constraints, the cluster clock, the instructions sysvar, the token and
  lamport transfers that the library's results call for, and the
  floating-point odds formula.
