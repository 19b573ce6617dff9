//! A ledger engine: replays an ordered log of deposits, withdrawals, disputes,
//! resolutions and chargebacks and yields the final state of every client
//! account.
//!
//! The rules are written once as a mathematical state machine (`model`), the
//! executable engine (`ledger`) is proved to follow it step by step, and the
//! properties that hold of every run are proved in `laws`.

pub mod account;
pub mod amount;
pub mod laws;
pub mod ledger;
pub mod model;
pub mod transaction;
