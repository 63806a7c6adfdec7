//! State and rules of a sports prediction market: events with outcomes and
//! odds, bets placed against a liquidity pool, vaults that hold the stakes,
//! and the settlement of an event once its winning outcome is known.
pub mod key;
pub mod state;
pub mod errors;
pub mod context;
