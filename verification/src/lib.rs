//! Constant-product automated-market-maker accounting engine.
//!
//! Given two reserve balances and a pool-share supply, the library computes
//! how much of each asset a depositor must supply or receives on withdrawal,
//! and how a swap of one asset for the other moves the reserves while
//! preserving the invariant `reserve_x * reserve_y` net of a proportional
//! trading fee. All results are exact, deterministic integer values; every
//! degenerate input is rejected with a typed error before any balance would
//! move.
//!
//! Token custody, account resolution and signer verification are external
//! collaborators: the handlers here take the ledger's current balances as
//! plain arguments and return the exact amounts the ledger must move.
//! Asset and signer identities likewise appear as the opaque integer
//! identifiers the resolution layer assigns; the engine only ever compares
//! them for equality.

pub mod errors;
pub mod math;
pub mod curve;
pub mod state;
pub mod handlers;
pub mod dispatch;
